//! A string wrapper over the dynamic array: a growable byte buffer whose
//! contents, once checked, are valid UTF-8.

use vstd::prelude::*;
use vstd::utf8::valid_utf8;
use vstd::utf8::valid_first_scalar;
use vstd::utf8::length_of_first_scalar;
use vstd::utf8::partial_valid_utf8;
use vstd::utf8::partial_valid_utf8_extend;
use vstd::utf8::partial_valid_partial_invalid_utf8;
use crate::vector::Vec;

verus! {

/// A growable string, stored as bytes in the library's own dynamic array.
pub struct String {
    vec: Vec<u8>,
}

/// The reject report of a failed UTF-8 conversion; it carries the bytes
/// back so the caller keeps them.
pub struct FromUtf8Error {
    bytes: Vec<u8>,
}

impl View for String {
    type V = Seq<u8>;

    /// The bytes of the string.
    closed spec fn view(&self) -> Seq<u8> {
        self.vec@
    }
}

impl View for FromUtf8Error {
    type V = Seq<u8>;

    /// The rejected bytes.
    closed spec fn view(&self) -> Seq<u8> {
        self.bytes@
    }
}

impl FromUtf8Error {
    /// The rejected bytes, as one contiguous borrowed view.
    pub fn as_bytes(&self) -> (r: &[u8])
        ensures
            r@ == self@,
    {
        self.bytes.as_slice()
    }
}

/// Examines the scalar encoding that starts at `i`: hands back its width
/// in bytes, or zero when no well-formed encoding of a single scalar
/// starts there.  The checks mirror the UTF-8 well-formedness conditions
/// one for one: a recognised leading byte, enough room, continuation
/// bytes where the width demands them, no overlong encoding, and no
/// surrogate.
fn first_scalar_width(bytes: &[u8], i: usize) -> (w: usize)
    requires
        i < bytes@.len(),
    ensures
        ({
            let suffix = bytes@.subrange(i as int, bytes@.len() as int);
            &&& (w != 0) == valid_first_scalar(suffix)
            &&& w != 0 ==> w as int == length_of_first_scalar(suffix) && i + w <= bytes@.len()
        }),
{
    let ghost suffix = bytes@.subrange(i as int, bytes@.len() as int);
    let n = bytes.len();
    let b0 = bytes[i];
    proof {
        assert(suffix[0] == bytes@[i as int]);
    }
    if b0 <= 0x7f {
        1
    } else if 0xc0 <= b0 && b0 <= 0xdf {
        if n - i < 2 {
            return 0;
        }
        let b1 = bytes[i + 1];
        proof {
            assert(suffix[1] == bytes@[i + 1 as int]);
        }
        if !(0x80 <= b1 && b1 <= 0xbf) {
            return 0;
        }
        let codepoint = (((b0 & 0x1f) as u32) << 6) | ((b1 & 0x3f) as u32);
        if codepoint < 0x80 {
            return 0;
        }
        if 0xd800 <= codepoint && codepoint <= 0xdfff {
            return 0;
        }
        2
    } else if 0xe0 <= b0 && b0 <= 0xef {
        if n - i < 3 {
            return 0;
        }
        let b1 = bytes[i + 1];
        let b2 = bytes[i + 2];
        proof {
            assert(suffix[1] == bytes@[i + 1 as int]);
            assert(suffix[2] == bytes@[i + 2 as int]);
        }
        if !(0x80 <= b1 && b1 <= 0xbf) || !(0x80 <= b2 && b2 <= 0xbf) {
            return 0;
        }
        let codepoint = (((b0 & 0x0f) as u32) << 12) | (((b1 & 0x3f) as u32) << 6) | ((b2
            & 0x3f) as u32);
        if codepoint < 0x800 {
            return 0;
        }
        if 0xd800 <= codepoint && codepoint <= 0xdfff {
            return 0;
        }
        3
    } else if 0xf0 <= b0 && b0 <= 0xf7 {
        if n - i < 4 {
            return 0;
        }
        let b1 = bytes[i + 1];
        let b2 = bytes[i + 2];
        let b3 = bytes[i + 3];
        proof {
            assert(suffix[1] == bytes@[i + 1 as int]);
            assert(suffix[2] == bytes@[i + 2 as int]);
            assert(suffix[3] == bytes@[i + 3 as int]);
        }
        if !(0x80 <= b1 && b1 <= 0xbf) || !(0x80 <= b2 && b2 <= 0xbf) || !(0x80 <= b3 && b3
            <= 0xbf) {
            return 0;
        }
        let codepoint = (((b0 & 0x07) as u32) << 18) | (((b1 & 0x3f) as u32) << 12) | (((b2
            & 0x3f) as u32) << 6) | ((b3 & 0x3f) as u32);
        if !(0x10000 <= codepoint && codepoint <= 0x10ffff) {
            return 0;
        }
        if 0xd800 <= codepoint && codepoint <= 0xdfff {
            return 0;
        }
        4
    } else {
        0
    }
}

/// Decides whether `bytes` are valid UTF-8, scalar encoding by scalar
/// encoding from the front.
fn utf8_check(bytes: &[u8]) -> (r: bool)
    ensures
        r == valid_utf8(bytes@),
{
    let n = bytes.len();
    let mut i: usize = 0;
    while i < n
        invariant
            0 <= i <= n,
            n as int == bytes@.len(),
            partial_valid_utf8(bytes@, i as int),
        decreases n - i,
    {
        let width = first_scalar_width(bytes, i);
        if width == 0 {
            proof {
                let suffix = bytes@.subrange(i as int, n as int);
                assert(!valid_utf8(suffix));
                partial_valid_partial_invalid_utf8(bytes@, i as int);
            }
            return false;
        }
        proof {
            partial_valid_utf8_extend(bytes@, i as int);
        }
        i = i + width;
    }
    proof {
        assert(bytes@.subrange(0, n as int) =~= bytes@);
    }
    true
}

impl String {
    /// The backing array is consistent.
    pub closed spec fn wf(&self) -> bool {
        self.vec.wf()
    }

    /// An empty string; no allocation is performed.
    pub fn new() -> (r: Self)
        ensures
            r.wf(),
            r@ == Seq::<u8>::empty(),
    {
        String { vec: Vec::new() }
    }

    /// An empty string over a buffer with room for `capacity` bytes.
    pub fn with_capacity(capacity: usize) -> (r: Self)
        requires
            capacity <= isize::MAX,
        ensures
            r.wf(),
            r@ == Seq::<u8>::empty(),
    {
        String { vec: Vec::with_capacity(capacity) }
    }

    /// Wraps `vec` if its bytes are valid UTF-8, and otherwise hands the
    /// bytes back in the reject report.
    pub fn from_utf8(vec: Vec<u8>) -> (r: Result<String, FromUtf8Error>)
        requires
            vec.wf(),
        ensures
            r is Ok <==> valid_utf8(vec@),
            r matches Ok(s) ==> s.wf() && s@ == vec@,
            r matches Err(e) ==> e@ == vec@,
    {
        if utf8_check(vec.as_slice()) {
            Ok(String { vec })
        } else {
            Err(FromUtf8Error { bytes: vec })
        }
    }

    /// The number of bytes held.
    pub fn len(&self) -> (r: usize)
        requires
            self.wf(),
        ensures
            r as int == self@.len(),
    {
        self.vec.len()
    }

    /// The bytes held, as one contiguous borrowed view.
    pub fn as_bytes(&self) -> (r: &[u8])
        ensures
            r@ == self@,
    {
        self.vec.as_slice()
    }
}

} // verus!
