use chat_memory::message::{Message, Role};
use chat_memory::transcript::{
    context_dump, transcript_dump, transcript_file_name, transcript_file_name_at,
    CONTEXT_DUMP_FILE, STAMP_PATTERN,
};

fn alternating(count: usize) -> Vec<Message> {
    let mut log = Vec::new();
    for i in 0..count {
        let role = if i % 2 == 0 { Role::User } else { Role::Assistant };
        log.push(Message::new(role, format!("m{}", i)));
    }
    log
}

#[test]
fn dump_file_and_stamp_pattern() {
    assert_eq!(CONTEXT_DUMP_FILE, "debug_context.txt");
    assert_eq!(STAMP_PATTERN, "%Y%m%dT%H%M%SZ");
}

#[test]
fn transcript_dump_lists_every_message() {
    let log = alternating(3);
    assert_eq!(
        transcript_dump(&log),
        "Conversation Transcript:\nuser: m0\nassistant: m1\nuser: m2\n"
    );
}

#[test]
fn transcript_dump_of_nothing_is_the_heading() {
    assert_eq!(transcript_dump(&[]), "Conversation Transcript:\n");
}

#[test]
fn context_dump_of_a_short_log_lists_the_log() {
    let log = alternating(2);
    assert_eq!(
        context_dump(&log, &Some("unused".to_string())),
        "Context Prompt:\nuser: m0\nassistant: m1\n"
    );
    assert_eq!(context_dump(&[], &None), "Context Prompt:\n");
}

#[test]
fn context_dump_of_a_long_log_lists_summary_and_window() {
    let log = alternating(22);
    let dump = context_dump(&log, &Some("digest".to_string()));
    let mut expected = String::from("Context Prompt:\nsystem: digest\n");
    for i in 2..22 {
        let label = if i % 2 == 0 { "user" } else { "assistant" };
        expected.push_str(&format!("{}: m{}\n", label, i));
    }
    assert_eq!(dump, expected);
    assert_eq!(dump.lines().count(), 22);
}

#[test]
fn transcript_file_name_wraps_the_stamp() {
    assert_eq!(transcript_file_name("20240102T030405Z"), "chat_transcript_20240102T030405Z.txt");
    assert_eq!(transcript_file_name(""), "chat_transcript_.txt");
}

#[test]
fn transcript_file_name_at_the_epoch() {
    assert_eq!(
        transcript_file_name_at(0),
        Some("chat_transcript_19700101T000000Z.txt".to_string())
    );
}

#[test]
fn transcript_file_name_at_known_moments() {
    assert_eq!(
        transcript_file_name_at(1_700_000_000),
        Some("chat_transcript_20231114T221320Z.txt".to_string())
    );
    assert_eq!(
        transcript_file_name_at(951_782_399),
        Some("chat_transcript_20000228T235959Z.txt".to_string())
    );
    assert_eq!(
        transcript_file_name_at(-1),
        Some("chat_transcript_19691231T235959Z.txt".to_string())
    );
}

#[test]
fn transcript_file_name_at_agrees_with_chrono() {
    let seconds = 1_234_567_890;
    let stamp = chrono::DateTime::from_timestamp(seconds, 0)
        .unwrap()
        .format("%Y%m%dT%H%M%SZ")
        .to_string();
    assert_eq!(stamp, "20090213T233130Z");
    assert_eq!(transcript_file_name_at(seconds), Some(transcript_file_name(&stamp)));
}

#[test]
fn transcript_file_name_beyond_the_calendar_is_none() {
    assert_eq!(transcript_file_name_at(i64::MAX), None);
    assert_eq!(transcript_file_name_at(i64::MIN), None);
}
