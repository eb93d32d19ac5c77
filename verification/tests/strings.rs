use structures::string::String;
use structures::vector::Vec;

#[test]
fn string_new_and_capacity() {
    let s = String::new();
    assert_eq!(s.len(), 0);
    assert_eq!(s.as_bytes(), &[] as &[u8]);
    let s = String::with_capacity(16);
    assert_eq!(s.len(), 0);
}

#[test]
fn string_from_utf8_accepts_ascii() {
    let mut v = Vec::new();
    for b in [104u8, 101, 106] {
        v.push(b);
    }
    let s = String::from_utf8(v).ok().unwrap();
    assert_eq!(s.as_bytes(), &[104u8, 101, 106]);
    assert_eq!(s.len(), 3);
}

#[test]
fn string_from_utf8_accepts_multibyte() {
    let mut v = Vec::new();
    // "né" in UTF-8: an ASCII byte then a two-byte sequence
    for b in [0x6Eu8, 0xC3, 0xA9] {
        v.push(b);
    }
    let s = String::from_utf8(v).ok().unwrap();
    assert_eq!(s.len(), 3);
}

#[test]
fn string_from_utf8_rejects_stray_continuation() {
    let mut v = Vec::new();
    v.push(0x80u8);
    let e = String::from_utf8(v).err().unwrap();
    assert_eq!(e.as_bytes(), &[0x80u8]);
}

#[test]
fn string_from_utf8_rejects_truncated_sequence() {
    let mut v = Vec::new();
    for b in [0x61u8, 0xC3] {
        v.push(b);
    }
    let e = String::from_utf8(v).err().unwrap();
    assert_eq!(e.as_bytes(), &[0x61u8, 0xC3]);
}
