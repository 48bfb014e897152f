use message_service::message::{not_found, Message, StatusReply};
use message_service::store::MessageStore;

fn body(contents: &str) -> Message {
    Message::with_contents(contents.to_string())
}

fn ok_body() -> StatusReply {
    StatusReply { status: "ok".to_string(), reason: None }
}

fn id_exists_body() -> StatusReply {
    StatusReply { status: "error".to_string(), reason: Some("ID exists. Try put.".to_string()) }
}

#[test]
fn create_then_get_returns_contents() {
    let mut store = MessageStore::new();
    assert_eq!(store.create(7, body("seven")), ok_body());
    assert_eq!(store.get(7), Some(Message { id: Some(7), contents: "seven".to_string() }));
    assert!(store.contains(7));
}

#[test]
fn create_ignores_id_of_body() {
    let mut store = MessageStore::new();
    let reply = store.create(3, Message { id: Some(99), contents: "three".to_string() });
    assert_eq!(reply, ok_body());
    assert_eq!(store.get(3), Some(Message { id: Some(3), contents: "three".to_string() }));
    assert_eq!(store.get(99), None);
}

#[test]
fn create_on_existing_id_keeps_contents() {
    let mut store = MessageStore::new();
    assert_eq!(store.create(1, body("first")), ok_body());
    assert_eq!(store.create(1, body("second")), id_exists_body());
    assert_eq!(store.get(1), Some(Message { id: Some(1), contents: "first".to_string() }));
}

#[test]
fn update_on_missing_id_creates_nothing() {
    let mut store = MessageStore::new();
    assert_eq!(store.update(5, body("five")), None);
    assert_eq!(store.get(5), None);
    assert!(!store.contains(5));
}

#[test]
fn update_replaces_contents() {
    let mut store = MessageStore::new();
    assert_eq!(store.create(2, body("old")), ok_body());
    assert_eq!(store.update(2, body("new")), Some(ok_body()));
    assert_eq!(store.get(2), Some(Message { id: Some(2), contents: "new".to_string() }));
}

#[test]
fn get_on_never_created_id_finds_nothing() {
    let mut store = MessageStore::new();
    assert_eq!(store.get(0), None);
    assert_eq!(store.create(1, body("one")), ok_body());
    assert_eq!(store.update(1, body("uno")), Some(ok_body()));
    assert_eq!(store.update(4, body("four")), None);
    assert_eq!(store.get(4), None);
    assert_eq!(store.get(usize::MAX), None);
}

#[test]
fn writes_leave_other_ids() {
    let mut store = MessageStore::new();
    assert_eq!(store.create(1, body("one")), ok_body());
    assert_eq!(store.create(2, body("two")), ok_body());
    assert_eq!(store.update(2, body("deux")), Some(ok_body()));
    assert_eq!(store.get(1), Some(Message { id: Some(1), contents: "one".to_string() }));
}

#[test]
fn empty_contents_are_contents() {
    let mut store = MessageStore::new();
    assert_eq!(store.create(0, body("")), ok_body());
    assert_eq!(store.get(0), Some(Message { id: Some(0), contents: String::new() }));
}

#[test]
fn message_scenario() {
    let mut store = MessageStore::new();
    assert_eq!(store.create(1, body("hi")), ok_body());
    assert_eq!(store.get(1), Some(Message { id: Some(1), contents: "hi".to_string() }));
    assert_eq!(store.create(1, body("bye")), id_exists_body());
    assert_eq!(store.update(1, body("bye")), Some(ok_body()));
    assert_eq!(store.get(1), Some(Message { id: Some(1), contents: "bye".to_string() }));
}

#[test]
fn status_bodies() {
    assert_eq!(StatusReply::ok(), ok_body());
    assert!(StatusReply::ok().is_ok());
    assert_eq!(StatusReply::error("ID exists. Try put."), id_exists_body());
    assert!(!StatusReply::error("x").is_ok());
    let expected = StatusReply {
        status: "error".to_string(),
        reason: Some("Resource was not found.".to_string()),
    };
    assert_eq!(not_found(), expected);
}
