use chat_memory::log::{Conversation, LogError};
use chat_memory::message::{Message, Role};

#[test]
fn role_labels() {
    assert_eq!(Role::System.label(), "system");
    assert_eq!(Role::User.label(), "user");
    assert_eq!(Role::Assistant.label(), "assistant");
}

#[test]
fn message_keeps_role_and_content() {
    let message = Message::new(Role::Assistant, "hello there".to_string());
    assert_eq!(message.role(), Role::Assistant);
    assert_eq!(message.content(), "hello there");
    let copy = message.clone();
    assert_eq!(copy.role(), Role::Assistant);
    assert_eq!(copy.content(), "hello there");
}

#[test]
fn new_log_is_empty() {
    let log = Conversation::new();
    assert_eq!(log.len(), 0);
    assert_eq!(log.exchange_count(), 0);
    assert!(log.messages().is_empty());
}

#[test]
fn append_adds_at_the_end() {
    let mut log = Conversation::new();
    log.append(Message::new(Role::User, "first".to_string()));
    log.append(Message::new(Role::Assistant, "second".to_string()));
    log.append(Message::new(Role::User, "third".to_string()));
    assert_eq!(log.len(), 3);
    assert_eq!(log.exchange_count(), 1);
    let all = log.messages();
    assert_eq!(all[0].content(), "first");
    assert_eq!(all[1].content(), "second");
    assert_eq!(all[2].content(), "third");
    assert_eq!(all[2].role(), Role::User);
}

#[test]
fn slice_reads_a_range() {
    let mut log = Conversation::new();
    for i in 0..5 {
        log.append(Message::new(Role::User, format!("m{}", i)));
    }
    let range = log.slice(1, 3).unwrap();
    assert_eq!(range.len(), 2);
    assert_eq!(range[0].content(), "m1");
    assert_eq!(range[1].content(), "m2");
    assert_eq!(log.slice(0, 5).unwrap().len(), 5);
    assert_eq!(log.slice(5, 5).unwrap().len(), 0);
    assert_eq!(log.slice(2, 2).unwrap().len(), 0);
}

#[test]
fn slice_past_the_end_is_refused() {
    let mut log = Conversation::new();
    for i in 0..5 {
        log.append(Message::new(Role::User, format!("m{}", i)));
    }
    assert_eq!(log.slice(0, 6).err(), Some(LogError::OutOfRange));
    assert_eq!(log.slice(6, 7).err(), Some(LogError::OutOfRange));
    assert_eq!(Conversation::new().slice(0, 1).err(), Some(LogError::OutOfRange));
    assert_eq!(log.len(), 5);
}
