//! What holds of every session, whatever events reach it and in whatever
//! order: statements about the transition function of
//! [`crate::session`], each proved from its definition.

use vstd::prelude::*;
use crate::context::{WINDOW_MESSAGES, needs_compaction};
use crate::input::is_blank;
use crate::message::{MessageView, Role};
use crate::remote::{RemoteResponseView, completion_failure_text, reply_of};
use crate::session::{
    ActionView,
    EventView,
    Phase,
    SessionView,
    action_for,
    assistant_message,
    consistent,
    initial_state,
    next_state,
    user_message,
};
use crate::summarizer::{summary_failure_text, summary_request_view};

verus! {

/// Whether an action asks the caller to issue a request of any kind.
pub open spec fn issues_request(action: ActionView) -> bool {
    ||| action is RequestCompletion
    ||| action matches ActionView::Deliver { summarize: Some(_), .. }
}

/// Whether an action asks the caller to issue a summarization request.
pub open spec fn requests_summary(action: ActionView) -> bool {
    action matches ActionView::Deliver { summarize: Some(_), .. }
}

/// Whether `e` opens a turn in state `s`: a line that is not blank, read
/// while the session is idle.
pub open spec fn begins_turn(s: SessionView, e: EventView) -> bool {
    s.phase is AwaitingInput && (e matches EventView::Line { text } && !is_blank(text))
}

/// The state reached from `s` when `events` happen one after the other.
pub open spec fn state_after(s: SessionView, events: Seq<EventView>) -> SessionView
    decreases events.len(),
{
    if events.len() == 0 {
        s
    } else {
        next_state(state_after(s, events.drop_last()), events.last())
    }
}

/// How many turns are opened while `events` happen from state `s`.
pub open spec fn turns_begun(s: SessionView, events: Seq<EventView>) -> nat
    decreases events.len(),
{
    if events.len() == 0 {
        0
    } else {
        let earlier = events.drop_last();
        turns_begun(s, earlier) + if begins_turn(state_after(s, earlier), events.last()) {
            1nat
        } else {
            0nat
        }
    }
}

/// How many summarization requests are issued while `events` happen from
/// state `s`.
pub open spec fn summaries_requested(s: SessionView, events: Seq<EventView>) -> nat
    decreases events.len(),
{
    if events.len() == 0 {
        0
    } else {
        let earlier = events.drop_last();
        summaries_requested(s, earlier) + if requests_summary(
            action_for(state_after(s, earlier), events.last()),
        ) {
            1nat
        } else {
            0nat
        }
    }
}

/// Whether the messages of a log come in exchanges: a message of the user,
/// then one of the assistant, and so on.
pub open spec fn alternates(log: Seq<MessageView>) -> bool {
    forall|i: int|
        0 <= i < log.len() ==> (#[trigger] log[i]).role == if i % 2 == 0 {
            Role::User
        } else {
            Role::Assistant
        }
}

/// Every step keeps a consistent state consistent.
pub proof fn lemma_step_keeps_consistency(s: SessionView, e: EventView)
    requires
        consistent(s),
    ensures
        consistent(next_state(s, e)),
{
}

/// Every state that a new session can reach is consistent.
pub proof fn lemma_reachable_states_are_consistent(model: Seq<char>, events: Seq<EventView>)
    ensures
        consistent(state_after(initial_state(model), events)),
    decreases events.len(),
{
    if events.len() > 0 {
        lemma_reachable_states_are_consistent(model, events.drop_last());
        lemma_step_keeps_consistency(
            state_after(initial_state(model), events.drop_last()),
            events.last(),
        );
    }
}

/// An answered turn adds exactly one exchange to the log: the line, trimmed,
/// as a message of the user, then the reply as a message of the assistant. A
/// log of whole exchanges stays one.
pub proof fn lemma_answered_turn_adds_an_exchange(
    s: SessionView,
    line: Seq<char>,
    response: RemoteResponseView,
)
    requires
        s.phase is AwaitingInput,
        !is_blank(line),
        reply_of(response) is Ok,
    ensures
        ({
            let asked = next_state(s, EventView::Line { text: line });
            let log = next_state(asked, EventView::CompletionReturned { response }).log;
            &&& asked.phase is RequestInFlight
            &&& log == s.log.push(user_message(line)).push(
                assistant_message(reply_of(response)->Ok_0),
            )
            &&& s.log.len() % 2 == 0 && alternates(s.log) ==> log.len() % 2 == 0 && alternates(
                log,
            )
        }),
{
}

/// A turn whose completion call fails is half applied: the line stays in the
/// log, no reply is added, the summary is untouched, no summarization is
/// requested, and the session is idle again.
pub proof fn lemma_failed_turn_is_half_applied(
    s: SessionView,
    line: Seq<char>,
    response: RemoteResponseView,
)
    requires
        s.phase is AwaitingInput,
        !is_blank(line),
        reply_of(response) is Err,
    ensures
        ({
            let asked = next_state(s, EventView::Line { text: line });
            let e = EventView::CompletionReturned { response };
            let after = next_state(asked, e);
            &&& after.log == s.log.push(user_message(line))
            &&& after.summary == s.summary
            &&& after.phase is AwaitingInput
            &&& action_for(asked, e) == (ActionView::Report {
                line: completion_failure_text(reply_of(response)->Err_0),
            })
        }),
{
}

/// A failed summarization is reported and changes nothing but the phase: the
/// summary stays at its previous value.
pub proof fn lemma_failed_summary_keeps_the_summary(s: SessionView, response: RemoteResponseView)
    requires
        s.phase is Summarizing,
        reply_of(response) is Err,
    ensures
        ({
            let e = EventView::SummaryReturned { response };
            &&& next_state(s, e) == (SessionView { phase: Phase::AwaitingInput, ..s })
            &&& action_for(s, e) == (ActionView::Report {
                line: summary_failure_text(reply_of(response)->Err_0),
            })
        }),
{
}

/// The log is append-only and the summary, once created, is never cleared:
/// a step leaves the log as it is or adds one message at its end, and a
/// summary that has a text still has one afterwards.
pub proof fn lemma_history_is_kept(s: SessionView, e: EventView)
    ensures
        ({
            let next = next_state(s, e);
            &&& next.model == s.model
            &&& next.log == s.log || (next.log.len() == s.log.len() + 1 && next.log.drop_last()
                == s.log)
            &&& s.summary.text is Some ==> next.summary.text is Some
        }),
{
    let next = next_state(s, e);
    if next.log != s.log {
        assert(next.log.drop_last() =~= s.log);
    }
}

/// A blank line changes nothing and causes no request.
pub proof fn lemma_blank_line_is_no_turn(s: SessionView, text: Seq<char>)
    requires
        is_blank(text),
    ensures
        next_state(s, EventView::Line { text }) == s,
        !issues_request(action_for(s, EventView::Line { text })),
{
}

/// Cancellation, like the end of input, is honoured only while the session
/// is idle. It then ends the session without touching the log or the summary
/// and without causing a request; in the middle of a turn it is ignored.
pub proof fn lemma_cancellation_only_while_idle(s: SessionView)
    ensures
        ({
            let next = next_state(s, EventView::Cancelled);
            let action = action_for(s, EventView::Cancelled);
            &&& next.log == s.log
            &&& next.summary == s.summary
            &&& !issues_request(action)
            &&& s.phase is AwaitingInput ==> next.phase is Terminated && action is Stop
            &&& s.phase is RequestInFlight || s.phase is Summarizing ==> next == s
                && action is Ignored
        }),
{
}

/// Once terminated, a session never changes again and causes no request.
pub proof fn lemma_terminated_stays_terminated(s: SessionView, e: EventView)
    requires
        s.phase is Terminated,
    ensures
        next_state(s, e) == s,
        action_for(s, e) == (ActionView::Stop { notice: None }),
{
}

/// The session ends only from the idle phase.
pub proof fn lemma_termination_only_from_idle(s: SessionView, e: EventView)
    requires
        next_state(s, e).phase is Terminated,
    ensures
        s.phase is AwaitingInput || s.phase is Terminated,
{
}

/// At most one request is outstanding at any time. A request is issued only
/// by a line read while the session is idle, or by the return of the
/// completion call, which is then no longer outstanding; and the session
/// waits for the outcome of each request it has issued.
pub proof fn lemma_one_request_at_a_time(s: SessionView, e: EventView)
    ensures
        ({
            let next = next_state(s, e);
            let action = action_for(s, e);
            &&& action is RequestCompletion <==> begins_turn(s, e)
            &&& action is RequestCompletion ==> next.phase is RequestInFlight
            &&& requests_summary(action) ==> s.phase is RequestInFlight
                && e is CompletionReturned && next.phase is Summarizing
            &&& !issues_request(action) ==> next.phase == s.phase || next.phase is AwaitingInput
                || next.phase is Terminated
        }),
{
}

/// A summarization request is issued exactly when a reply has just been
/// recorded and the log then holds more than ten exchanges.
pub proof fn lemma_summary_requested_when_due(s: SessionView, e: EventView)
    ensures
        requests_summary(action_for(s, e)) <==> (s.phase is RequestInFlight && (e matches EventView::CompletionReturned {
            response,
        } && reply_of(response) is Ok && needs_compaction(s.log.len() + 1))),
        requests_summary(action_for(s, e)) ==> next_state(s, e).phase is Summarizing,
{
}

/// However the events fall, no turn sees more than one summarization
/// request: from an idle session, the requests issued never outnumber the
/// turns opened.
pub proof fn lemma_one_summary_per_turn(s: SessionView, events: Seq<EventView>)
    ensures
        summaries_requested(s, events) + (if state_after(s, events).phase is RequestInFlight {
            1nat
        } else {
            0nat
        }) <= turns_begun(s, events) + (if s.phase is RequestInFlight {
            1nat
        } else {
            0nat
        }),
        s.phase is AwaitingInput ==> summaries_requested(s, events) <= turns_begun(s, events),
    decreases events.len(),
{
    if events.len() > 0 {
        lemma_one_summary_per_turn(s, events.drop_last());
    }
}

/// The first summarization call digests everything before the active
/// window: while there is no summary yet, the request issued after a reply
/// asks for a fresh summary of the log without its last twenty messages.
pub proof fn lemma_first_summary_input(s: SessionView, response: RemoteResponseView)
    requires
        consistent(s),
        s.phase is RequestInFlight,
        s.summary.text is None,
        reply_of(response) is Ok,
        needs_compaction(s.log.len() + 1),
    ensures
        ({
            let e = EventView::CompletionReturned { response };
            let log = next_state(s, e).log;
            action_for(s, e) matches ActionView::Deliver { summarize: Some(request), .. }
                && request == summary_request_view(None, log.subrange(0, log.len() - 20))
        }),
{
}

/// Whether the summary of `s` accounts for exactly the messages that lie
/// before the active window.
pub open spec fn summary_in_step(s: SessionView) -> bool {
    s.summary.text is Some && s.summary.covered + WINDOW_MESSAGES as nat == s.log.len()
}

/// A successful summarization leaves the summary in step with the log.
pub proof fn lemma_summary_brings_in_step(s: SessionView, response: RemoteResponseView)
    requires
        consistent(s),
        s.phase is Summarizing,
        reply_of(response) is Ok,
    ensures
        summary_in_step(next_state(s, EventView::SummaryReturned { response })),
{
}

/// Every later summarization call digests exactly one exchange. When the
/// summary is in step with the log and a turn then runs its full course, a
/// line that is not blank and a reply to it, the request issued asks to
/// extend the summary by the two messages that just left the active window.
pub proof fn lemma_later_summary_input(
    s: SessionView,
    line: Seq<char>,
    response: RemoteResponseView,
)
    requires
        consistent(s),
        s.phase is AwaitingInput,
        summary_in_step(s),
        !is_blank(line),
        reply_of(response) is Ok,
    ensures
        ({
            let asked = next_state(s, EventView::Line { text: line });
            let e = EventView::CompletionReturned { response };
            let log = next_state(asked, e).log;
            &&& log.len() == s.log.len() + 2
            &&& log.subrange(log.len() - 22, log.len() - 20).len() == 2
            &&& action_for(asked, e) matches ActionView::Deliver { summarize: Some(request), .. }
                && request == summary_request_view(
                s.summary.text,
                log.subrange(log.len() - 22, log.len() - 20),
            )
        }),
{
}

} // verus!
