//! The context window: which messages accompany the next request.

use vstd::prelude::*;
use crate::message::{Message, MessageView, Role, message_views};

verus! {

/// A log of up to this many exchanges is sent whole.
pub const FULL_HISTORY_EXCHANGES: usize = 10;

/// The number of most recent messages that are always sent verbatim.
pub const WINDOW_MESSAGES: usize = 20;

/// The number of exchanges in a log of `len` messages.
pub open spec fn exchange_count(len: nat) -> nat {
    len / 2
}

/// Whether a log of `len` messages is long enough to be compacted.
pub open spec fn needs_compaction(len: nat) -> bool {
    exchange_count(len) > FULL_HISTORY_EXCHANGES as nat
}

/// The summary as it appears at the head of a compacted window.
pub open spec fn summary_message(summary: Seq<char>) -> MessageView {
    MessageView { role: Role::System, content: summary }
}

/// The most recent `WINDOW_MESSAGES` messages of a log.
pub open spec fn active_window(log: Seq<MessageView>) -> Seq<MessageView> {
    log.subrange(log.len() - WINDOW_MESSAGES as int, log.len() as int)
}

/// The messages to send for a log and the current summary: the whole log
/// while it is short, otherwise the summary (if there is one) followed by the
/// active window.
pub open spec fn context_window(log: Seq<MessageView>, summary: Option<Seq<char>>) -> Seq<
    MessageView,
> {
    if !needs_compaction(log.len()) {
        log
    } else {
        match summary {
            Some(text) => seq![summary_message(text)] + active_window(log),
            None => active_window(log),
        }
    }
}

/// The view of an optional text.
pub open spec fn text_view(text: Option<String>) -> Option<Seq<char>> {
    match text {
        Some(t) => Some(t@),
        None => None,
    }
}

/// A short log is sent exactly as it is, with no summary in front.
pub proof fn lemma_short_log_sent_whole(log: Seq<MessageView>, summary: Option<Seq<char>>)
    requires
        exchange_count(log.len()) <= 10,
    ensures
        context_window(log, summary) == log,
{
}

/// A long log is cut to its last twenty messages, preceded by the summary
/// when there is one: the window has twenty-one messages if and only if a
/// summary exists, and twenty otherwise.
pub proof fn lemma_long_log_window(log: Seq<MessageView>, summary: Option<Seq<char>>)
    requires
        exchange_count(log.len()) > 10,
    ensures
        ({
            let window = context_window(log, summary);
            &&& window.len() == 20 || window.len() == 21
            &&& window.len() == 21 <==> summary is Some
            &&& window.subrange(window.len() - 20, window.len() as int) == log.subrange(
                log.len() - 20,
                log.len() as int,
            )
            &&& summary matches Some(text) ==> window[0] == summary_message(text)
        }),
{
}

/// Copies the messages of `source` from index `from` on to the end of `sink`.
fn extend_with_copies(sink: &mut Vec<Message>, source: &[Message], from: usize)
    requires
        from <= source@.len(),
    ensures
        message_views(final(sink)@) == message_views(old(sink)@) + message_views(
            source@,
        ).subrange(from as int, source@.len() as int),
{
    let mut i: usize = from;
    while i < source.len()
        invariant
            from <= i <= source@.len(),
            message_views(sink@) == message_views(old(sink)@) + message_views(source@).subrange(
                from as int,
                i as int,
            ),
        decreases source@.len() - i,
    {
        let ghost before = sink@;
        sink.push(source[i].clone());
        proof {
            let views = message_views(source@);
            assert(message_views(sink@) =~= message_views(before).push(views[i as int]));
            assert(views.subrange(from as int, i as int + 1) =~= views.subrange(
                from as int,
                i as int,
            ).push(views[i as int]));
        }
        i = i + 1;
    }
}

/// Builds the messages to send with the next request.
pub fn build_context(conversation: &[Message], summary: &Option<String>) -> (context: Vec<
    Message,
>)
    ensures
        message_views(context@) == context_window(
            message_views(conversation@),
            text_view(*summary),
        ),
        !needs_compaction(conversation@.len()) ==> message_views(context@) == message_views(
            conversation@,
        ),
        needs_compaction(conversation@.len()) ==> {
            &&& context@.len() == 20 + (if summary is Some { 1int } else { 0int })
            &&& message_views(context@).subrange(context@.len() - 20, context@.len() as int)
                == message_views(conversation@).subrange(
                conversation@.len() - 20,
                conversation@.len() as int,
            )
        },
{
    let total_exchanges = conversation.len() / 2;
    let mut context: Vec<Message> = Vec::new();
    if total_exchanges <= FULL_HISTORY_EXCHANGES {
        extend_with_copies(&mut context, conversation, 0);
    } else {
        let start_index = conversation.len() - WINDOW_MESSAGES;
        match summary {
            Some(text) => {
                context.push(Message::new(Role::System, text.clone()));
            },
            None => {},
        }
        extend_with_copies(&mut context, conversation, start_index);
    }
    context
}

} // verus!
