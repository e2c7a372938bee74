use chat_memory::context::{build_context, FULL_HISTORY_EXCHANGES, WINDOW_MESSAGES};
use chat_memory::message::{Message, Role};

fn alternating(count: usize) -> Vec<Message> {
    let mut log = Vec::new();
    for i in 0..count {
        let role = if i % 2 == 0 { Role::User } else { Role::Assistant };
        log.push(Message::new(role, format!("message {}", i)));
    }
    log
}

fn same(left: &[Message], right: &[Message]) -> bool {
    left.len() == right.len()
        && left
            .iter()
            .zip(right.iter())
            .all(|(a, b)| a.role() == b.role() && a.content() == b.content())
}

#[test]
fn constants_are_ten_exchanges_and_twenty_messages() {
    assert_eq!(FULL_HISTORY_EXCHANGES, 10);
    assert_eq!(WINDOW_MESSAGES, 20);
}

#[test]
fn empty_log_gives_empty_context() {
    let context = build_context(&[], &None);
    assert!(context.is_empty());
    let context = build_context(&[], &Some("old news".to_string()));
    assert!(context.is_empty());
}

#[test]
fn short_log_is_sent_whole() {
    let log = alternating(6);
    let context = build_context(&log, &None);
    assert!(same(&context, &log));
}

#[test]
fn short_log_ignores_an_existing_summary() {
    let log = alternating(8);
    let context = build_context(&log, &Some("digest".to_string()));
    assert_eq!(context.len(), 8);
    assert!(same(&context, &log));
    assert!(context.iter().all(|m| m.role() != Role::System));
}

#[test]
fn exactly_ten_exchanges_are_still_sent_whole() {
    let log = alternating(20);
    let context = build_context(&log, &Some("digest".to_string()));
    assert_eq!(context.len(), 20);
    assert!(same(&context, &log));
}

#[test]
fn twenty_one_messages_count_as_ten_exchanges() {
    let log = alternating(21);
    let context = build_context(&log, &Some("digest".to_string()));
    assert_eq!(context.len(), 21);
    assert!(same(&context, &log));
}

#[test]
fn eleven_exchanges_without_summary_give_the_last_twenty() {
    let log = alternating(22);
    let context = build_context(&log, &None);
    assert_eq!(context.len(), 20);
    assert!(same(&context, &log[2..]));
    assert_eq!(context[0].content(), "message 2");
    assert_eq!(context[19].content(), "message 21");
}

#[test]
fn eleven_exchanges_with_summary_give_summary_and_last_twenty() {
    let log = alternating(22);
    let context = build_context(&log, &Some("what came before".to_string()));
    assert_eq!(context.len(), 21);
    assert_eq!(context[0].role(), Role::System);
    assert_eq!(context[0].content(), "what came before");
    assert!(same(&context[1..], &log[2..]));
}

#[test]
fn long_log_keeps_only_the_active_window() {
    let log = alternating(100);
    let context = build_context(&log, &Some("s".to_string()));
    assert_eq!(context.len(), 21);
    assert!(same(&context[1..], &log[80..]));
    let context = build_context(&log, &None);
    assert_eq!(context.len(), 20);
    assert!(same(&context, &log[80..]));
}

#[test]
fn odd_log_after_a_failed_turn_still_gives_a_window() {
    let log = alternating(23);
    let context = build_context(&log, &None);
    assert_eq!(context.len(), 20);
    assert!(same(&context, &log[3..]));
    let context = build_context(&log, &Some("digest".to_string()));
    assert_eq!(context.len(), 21);
    assert_eq!(context[0].role(), Role::System);
    assert!(same(&context[1..], &log[3..]));
}

#[test]
fn context_is_a_copy_and_leaves_the_log_alone() {
    let log = alternating(30);
    let _ = build_context(&log, &Some("digest".to_string()));
    assert_eq!(log.len(), 30);
    assert_eq!(log[0].content(), "message 0");
    assert_eq!(log[29].content(), "message 29");
}
