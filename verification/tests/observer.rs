use structures::observer::EditorEvent;
use structures::observer::Editor;
use structures::observer::EmailAlerts;
use structures::observer::ListenerCell;
use structures::observer::ListenerError;
use structures::observer::Subject;

#[test]
fn editor_basic_test() {
    // a publisher that emits the events
    let mut editor = Editor::new();

    // a subscriber registered with the publisher, which owns it
    let alerts = EmailAlerts::new();
    let alerts = ListenerCell::from(alerts);
    let handle = editor.listeners().add_listener(alerts);

    // update the state of the editor
    for _ in 0..5 {
        editor.comment(String::from("John"), String::from("Some comment"));
        editor.mention(String::from("Alice"));
    }

    // confirm that the subscriber received the events
    let editor_count = editor.comments() + editor.mentions();
    assert_eq!(
        editor.listeners().listener(&handle).unwrap().as_ref().count(),
        editor_count
    );

    // remove the listener, taking it back
    let removed = editor.listeners().remove_listener(&handle).unwrap();

    for _ in 0..10 {
        editor.mention(String::from("John"))
    }

    // confirm that the subscriber didn't receive the events after removal
    assert_eq!(removed.as_ref().count(), editor_count);
    assert_ne!(
        removed.as_ref().count(),
        editor.comments() + editor.mentions()
    );
}

#[test]
fn mod_basic_test() {
    // a publisher that emits the events
    let mut editor = Editor::new();

    // a subscriber that subscribes to the publisher
    let email_alerts = EmailAlerts::new();
    let handle = editor.add_listener(ListenerCell::from(email_alerts));

    // update the state of the editor
    for _ in 0..5 {
        editor.comment(String::from("John"), String::from("Some comment"));
        editor.mention(String::from("Alice"));
    }

    let removed = editor.remove_listener(&handle);

    // confirm that the subscriber received the events
    let alerts_count = removed.unwrap().as_ref().count();
    let editor_count = editor.comments() + editor.mentions();
    assert_eq!(alerts_count, editor_count);
}

#[test]
fn listener_drop() {
    let mut subject = Subject::new();
    let first = subject.add_listener(ListenerCell::from(EmailAlerts::new()));
    let second = subject.add_listener(ListenerCell::from(EmailAlerts::new()));
    assert_eq!(subject.listener_count(), 2);
    assert!(first.is_valid(&subject));
    assert!(second.is_valid(&subject));
    assert!(subject.remove_listener(&first).is_some());
    assert!(subject.remove_listener(&second).is_some());
    assert_eq!(subject.listener_count(), 0);
}

#[test]
fn listener_ref_update() {
    let mut subject = Subject::new();
    let handle = subject.add_listener(ListenerCell::from(EmailAlerts::new()));
    let event = EditorEvent::Mention { person: String::from("Bo") };
    assert!(handle.try_update(&mut subject, &event).is_ok());
    let cell = subject.remove_listener(&handle).unwrap();
    assert_eq!(cell.as_ref().count(), 1);
    assert!(matches!(
        handle.try_update(&mut subject, &event),
        Err(ListenerError::Invalid)
    ));
    assert!(!handle.is_valid(&subject));
}

#[test]
fn subject_notify_counts() {
    let mut subject = Subject::new();
    let a = subject.add_listener(ListenerCell::from(EmailAlerts::new()));
    let b = subject.add_listener(ListenerCell::from(EmailAlerts::new()));
    let event = EditorEvent::Comment {
        person: String::from("Ada"),
        comment: String::from("fine work"),
    };
    subject.notify(&event);
    subject.try_notify(&event);
    let first = subject.remove_listener(&a).unwrap();
    let second = subject.remove_listener(&b).unwrap();
    assert_eq!(first.as_ref().count(), 2);
    assert_eq!(second.as_ref().count(), 2);
}

#[test]
fn email_alerts_reset() {
    let event = EditorEvent::Mention { person: String::from("Eve") };
    let mut cell = ListenerCell::from(EmailAlerts::new());
    cell.deliver(&event);
    cell.deliver(&event);
    assert_eq!(cell.as_ref().count(), 2);
    cell.as_mut().reset();
    assert_eq!(cell.as_ref().count(), 0);
}
