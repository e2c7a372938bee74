//! Text dumps of a conversation, for inspection: the context that would be
//! sent next, the full transcript, and the name of the file a transcript is
//! kept under.

use vstd::prelude::*;
use crate::context::{build_context, context_window, text_view};
use crate::message::{Message, MessageView, append_message_lines, message_lines, message_views};

verus! {

/// The file that holds the latest context dump.
pub const CONTEXT_DUMP_FILE: &'static str = "debug_context.txt";

/// The pattern of the time stamp in a transcript's file name: the date, the
/// letter T, the time of day and the letter Z, all digits without
/// separators.
pub const STAMP_PATTERN: &'static str = "%Y%m%dT%H%M%SZ";

/// The dump of the context that would be sent for `log` and `summary`.
pub open spec fn context_dump_text(log: Seq<MessageView>, summary: Option<Seq<char>>) -> Seq<
    char,
> {
    "Context Prompt:\n"@ + message_lines(context_window(log, summary))
}

/// The dump of a whole log.
pub open spec fn transcript_text(log: Seq<MessageView>) -> Seq<char> {
    "Conversation Transcript:\n"@ + message_lines(log)
}

/// The name of the transcript file that carries the time stamp `stamp`.
pub open spec fn transcript_name(stamp: Seq<char>) -> Seq<char> {
    "chat_transcript_"@ + stamp + ".txt"@
}

/// Writes the dump of the context that would be sent next: a heading, then
/// one line for each message of the context window.
pub fn context_dump(conversation: &[Message], summary: &Option<String>) -> (dump: String)
    ensures
        dump@ == context_dump_text(message_views(conversation@), text_view(*summary)),
{
    let context = build_context(conversation, summary);
    let mut dump = String::from_str("Context Prompt:\n");
    append_message_lines(&mut dump, context.as_slice());
    dump
}

/// Writes the dump of the whole conversation: a heading, then one line for
/// each message.
pub fn transcript_dump(conversation: &[Message]) -> (dump: String)
    ensures
        dump@ == transcript_text(message_views(conversation@)),
{
    let mut dump = String::from_str("Conversation Transcript:\n");
    append_message_lines(&mut dump, conversation);
    dump
}

/// The name of the transcript file that carries the time stamp `stamp`.
pub fn transcript_file_name(stamp: &str) -> (name: String)
    ensures
        name@ == transcript_name(stamp@),
{
    let mut name = String::from_str("chat_transcript_");
    name.append(stamp);
    name.append(".txt");
    name
}

/// The text that `chrono` writes for the moment `seconds` seconds after the
/// start of 1970, in universal time, when asked to format it by `pattern`;
/// `None` where it has no such moment or rejects the pattern.
pub uninterp spec fn utc_text(seconds: i64, pattern: Seq<char>) -> Option<Seq<char>>;

/// Formats a moment in universal time with `chrono`: `DateTime::from_timestamp`
/// makes the moment, `DateTime::format` with `DelayedFormat::write_to` writes
/// it. The contract only gives the outcome its name: the same seconds and
/// pattern always give the same text, and nothing is claimed about what the
/// text holds.
#[verifier::external_body]
fn format_utc(seconds: i64, pattern: &str) -> (text: Option<String>)
    ensures
        text_view(text) == utc_text(seconds, pattern@),
{
    match chrono::DateTime::from_timestamp(seconds, 0) {
        Some(moment) => {
            let mut text = String::new();
            match moment.format(pattern).write_to(&mut text) {
                Ok(()) => Some(text),
                Err(_) => None,
            }
        },
        None => None,
    }
}

/// The name of the transcript file written at the moment `seconds` seconds
/// after the start of 1970; `None` where that moment cannot be written as a
/// time stamp.
pub fn transcript_file_name_at(seconds: i64) -> (name: Option<String>)
    ensures
        text_view(name) == match utc_text(seconds, STAMP_PATTERN@) {
            Some(stamp) => Some(transcript_name(stamp)),
            None => None,
        },
{
    match format_utc(seconds, STAMP_PATTERN) {
        Some(stamp) => Some(transcript_file_name(stamp.as_str())),
        None => None,
    }
}

} // verus!
