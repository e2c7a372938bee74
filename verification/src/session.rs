//! The session: one conversation driven turn by turn as a state machine.
//!
//! The caller performs the outside work. It hands each thing that happens to
//! [`Session::step`] as an [`Event`] and carries out the [`Action`] it gets
//! back; the session decides everything else.

use vstd::prelude::*;
use vstd::slice::slice_subrange;
use crate::context::{
    FULL_HISTORY_EXCHANGES,
    WINDOW_MESSAGES,
    build_context, context_window, needs_compaction, text_view};
use crate::input::{is_blank, trim_line, trimmed};
use crate::log::Conversation;
use crate::message::{Message, MessageView, Role, message_views};
use crate::remote::{
    ChatRequest,
    ChatRequestView,
    RemoteResponse,
    RemoteResponseView,
    completion_failure_text,
    read_reply,
    reply_of,
};
use crate::summarizer::{
    RollingSummary,
    SummaryView,
    read_summary,
    str_view,
    summary_failure_text,
    summary_input,
    summary_request,
    summary_request_view,
};

verus! {

/// Where a session stands within a turn.
#[derive(Clone, Copy, Debug, PartialEq, Eq, Structural)]
pub enum Phase {
    /// Idle: waiting for the next line of input or for cancellation.
    AwaitingInput,
    /// A completion request has been issued and not yet answered.
    RequestInFlight,
    /// The reply has been recorded and a summarization request is out.
    Summarizing,
    /// The session is over.
    Terminated,
}

/// Something that happened outside the session.
#[derive(Debug)]
pub enum Event {
    /// A line of input was read.
    Line { text: String },
    /// The input ended.
    InputClosed,
    /// Cancellation was requested.
    Cancelled,
    /// The completion call came back.
    CompletionReturned { response: RemoteResponse },
    /// The summarization call came back.
    SummaryReturned { response: RemoteResponse },
}

/// What an event is, as a mathematical value.
pub enum EventView {
    Line { text: Seq<char> },
    InputClosed,
    Cancelled,
    CompletionReturned { response: RemoteResponseView },
    SummaryReturned { response: RemoteResponseView },
}

impl View for Event {
    type V = EventView;

    open spec fn view(&self) -> EventView {
        match *self {
            Event::Line { text } => EventView::Line { text: text@ },
            Event::InputClosed => EventView::InputClosed,
            Event::Cancelled => EventView::Cancelled,
            Event::CompletionReturned { response } => EventView::CompletionReturned {
                response: response@,
            },
            Event::SummaryReturned { response } => EventView::SummaryReturned {
                response: response@,
            },
        }
    }
}

/// What the caller is to do next.
#[derive(Debug)]
pub enum Action {
    /// Nothing to perform: wait for the next line or for cancellation.
    AwaitInput,
    /// Send `request` to the service and report its outcome as
    /// [`Event::CompletionReturned`].
    RequestCompletion { request: ChatRequest },
    /// Show `line` to the user. If `summarize` holds a request, then send it
    /// and report its outcome as [`Event::SummaryReturned`]; otherwise wait
    /// for input.
    Deliver { line: String, summarize: Option<ChatRequest> },
    /// Show `line` on the error stream, then wait for input.
    Report { line: String },
    /// Leave the loop, after showing `notice` if there is one.
    Stop { notice: Option<String> },
    /// The event does not belong to the current phase and changed nothing.
    Ignored,
}

/// What an action is, as a mathematical value.
pub enum ActionView {
    AwaitInput,
    RequestCompletion { request: ChatRequestView },
    Deliver { line: Seq<char>, summarize: Option<ChatRequestView> },
    Report { line: Seq<char> },
    Stop { notice: Option<Seq<char>> },
    Ignored,
}

impl View for Action {
    type V = ActionView;

    open spec fn view(&self) -> ActionView {
        match *self {
            Action::AwaitInput => ActionView::AwaitInput,
            Action::RequestCompletion { request } => ActionView::RequestCompletion {
                request: request@,
            },
            Action::Deliver { line, summarize } => ActionView::Deliver {
                line: line@,
                summarize: match summarize {
                    Some(request) => Some(request@),
                    None => None,
                },
            },
            Action::Report { line } => ActionView::Report { line: line@ },
            Action::Stop { notice } => ActionView::Stop { notice: text_view(notice) },
            Action::Ignored => ActionView::Ignored,
        }
    }
}

/// What a session is, as a mathematical value.
pub struct SessionView {
    pub model: Seq<char>,
    pub log: Seq<MessageView>,
    pub summary: SummaryView,
    pub phase: Phase,
}

/// The state of a session that has just been opened for `model`.
pub open spec fn initial_state(model: Seq<char>) -> SessionView {
    SessionView {
        model,
        log: Seq::empty(),
        summary: SummaryView { text: None, covered: 0 },
        phase: Phase::AwaitingInput,
    }
}

/// What every reachable state satisfies: the summary accounts for nothing
/// until it has a text, never for a message of the active window, and a
/// summarization is only ever out for a log long enough to need one.
pub open spec fn consistent(s: SessionView) -> bool {
    &&& s.summary.text is None ==> s.summary.covered == 0
    &&& s.summary.covered == 0 || s.summary.covered + WINDOW_MESSAGES as nat <= s.log.len()
    &&& s.phase is Summarizing ==> needs_compaction(s.log.len())
}

/// The message that records what the user typed.
pub open spec fn user_message(line: Seq<char>) -> MessageView {
    MessageView { role: Role::User, content: trimmed(line) }
}

/// The message that records a reply.
pub open spec fn assistant_message(reply: Seq<char>) -> MessageView {
    MessageView { role: Role::Assistant, content: reply }
}

/// The line that shows a reply to the user.
pub open spec fn reply_line(model: Seq<char>, reply: Seq<char>) -> Seq<char> {
    model + ": "@ + reply + "\n"@
}

/// The notice shown when the session ends on cancellation.
pub open spec fn cancellation_notice() -> Seq<char> {
    "\nTermination signal received."@
}

/// The state that follows `s` when `e` happens.
pub open spec fn next_state(s: SessionView, e: EventView) -> SessionView {
    match (s.phase, e) {
        (Phase::AwaitingInput, EventView::Line { text }) => if is_blank(text) {
            s
        } else {
            SessionView { log: s.log.push(user_message(text)), phase: Phase::RequestInFlight, ..s }
        },
        (Phase::AwaitingInput, EventView::InputClosed) => SessionView {
            phase: Phase::Terminated,
            ..s
        },
        (Phase::AwaitingInput, EventView::Cancelled) => SessionView {
            phase: Phase::Terminated,
            ..s
        },
        (Phase::RequestInFlight, EventView::CompletionReturned { response }) => match reply_of(
            response,
        ) {
            Ok(reply) => {
                let log = s.log.push(assistant_message(reply));
                SessionView {
                    log,
                    phase: if needs_compaction(log.len()) {
                        Phase::Summarizing
                    } else {
                        Phase::AwaitingInput
                    },
                    ..s
                }
            },
            Err(_) => SessionView { phase: Phase::AwaitingInput, ..s },
        },
        (Phase::Summarizing, EventView::SummaryReturned { response }) => match reply_of(
            response,
        ) {
            Ok(text) => SessionView {
                summary: SummaryView {
                    text: Some(text),
                    covered: (s.log.len() - WINDOW_MESSAGES as nat) as nat,
                },
                phase: Phase::AwaitingInput,
                ..s
            },
            Err(_) => SessionView { phase: Phase::AwaitingInput, ..s },
        },
        _ => s,
    }
}

/// What the caller is told to do when `e` happens in state `s`.
pub open spec fn action_for(s: SessionView, e: EventView) -> ActionView {
    match (s.phase, e) {
        (Phase::AwaitingInput, EventView::Line { text }) => if is_blank(text) {
            ActionView::AwaitInput
        } else {
            ActionView::RequestCompletion {
                request: ChatRequestView {
                    model: s.model,
                    messages: context_window(s.log.push(user_message(text)), s.summary.text),
                },
            }
        },
        (Phase::AwaitingInput, EventView::InputClosed) => ActionView::Stop { notice: None },
        (Phase::AwaitingInput, EventView::Cancelled) => ActionView::Stop {
            notice: Some(cancellation_notice()),
        },
        (Phase::RequestInFlight, EventView::CompletionReturned { response }) => match reply_of(
            response,
        ) {
            Ok(reply) => {
                let log = s.log.push(assistant_message(reply));
                ActionView::Deliver {
                    line: reply_line(s.model, reply),
                    summarize: if needs_compaction(log.len()) {
                        Some(
                            summary_request_view(
                                s.summary.text,
                                summary_input(log, s.summary.covered),
                            ),
                        )
                    } else {
                        None
                    },
                }
            },
            Err(error) => ActionView::Report { line: completion_failure_text(error) },
        },
        (Phase::Summarizing, EventView::SummaryReturned { response }) => match reply_of(
            response,
        ) {
            Ok(_) => ActionView::AwaitInput,
            Err(error) => ActionView::Report { line: summary_failure_text(error) },
        },
        (Phase::Terminated, _) => ActionView::Stop { notice: None },
        _ => ActionView::Ignored,
    }
}

/// Borrows an optional text.
fn as_text(text: &Option<String>) -> (borrowed: Option<&str>)
    ensures
        str_view(borrowed) == text_view(*text),
{
    match text {
        Some(t) => Some(t.as_str()),
        None => None,
    }
}

/// One conversation with the service, from the first line to termination.
pub struct Session {
    model: String,
    log: Conversation,
    summary: RollingSummary,
    phase: Phase,
}

impl View for Session {
    type V = SessionView;

    closed spec fn view(&self) -> SessionView {
        SessionView {
            model: self.model@,
            log: self.log@,
            summary: self.summary@,
            phase: self.phase,
        }
    }
}

impl Session {
    #[verifier::type_invariant]
    spec fn holds_together(&self) -> bool {
        consistent(self@)
    }

    /// Opens a session that converses with `model`.
    pub fn new(model: String) -> (session: Session)
        ensures
            session@ == initial_state(model@),
            consistent(session@),
    {
        Session {
            model,
            log: Conversation::new(),
            summary: RollingSummary::new(),
            phase: Phase::AwaitingInput,
        }
    }

    /// Takes in one event: gives the state that follows and says what the
    /// caller is to do next.
    pub fn step(self, event: Event) -> (outcome: (Session, Action))
        ensures
            outcome.0@ == next_state(self@, event@),
            outcome.1@ == action_for(self@, event@),
            consistent(outcome.0@),
    {
        proof {
            use_type_invariant(&self);
        }
        match self.phase {
            Phase::AwaitingInput => match event {
                Event::Line { text } => self.take_line(text),
                Event::InputClosed => {
                    let ended = Session { phase: Phase::Terminated, ..self };
                    (ended, Action::Stop { notice: None })
                },
                Event::Cancelled => {
                    let ended = Session { phase: Phase::Terminated, ..self };
                    let notice = String::from_str("\nTermination signal received.");
                    (ended, Action::Stop { notice: Some(notice) })
                },
                _ => (self, Action::Ignored),
            },
            Phase::RequestInFlight => match event {
                Event::CompletionReturned { response } => self.take_completion(&response),
                _ => (self, Action::Ignored),
            },
            Phase::Summarizing => match event {
                Event::SummaryReturned { response } => self.take_summary(&response),
                _ => (self, Action::Ignored),
            },
            Phase::Terminated => (self, Action::Stop { notice: None }),
        }
    }

    /// A line was read while the session was idle.
    fn take_line(self, text: String) -> (outcome: (Session, Action))
        requires
            self@.phase is AwaitingInput,
        ensures
            outcome.0@ == next_state(self@, EventView::Line { text: text@ }),
            outcome.1@ == action_for(self@, EventView::Line { text: text@ }),
            consistent(outcome.0@),
    {
        proof {
            use_type_invariant(&self);
        }
        let prompt = trim_line(text.as_str());
        if prompt.unicode_len() == 0 {
            return (self, Action::AwaitInput);
        }
        let Session { model, mut log, summary, phase: _ } = self;
        log.append(Message::new(Role::User, String::from_str(prompt)));
        let messages = build_context(log.messages(), summary.text());
        let request = ChatRequest { model: model.clone(), messages };
        (
            Session { model, log, summary, phase: Phase::RequestInFlight },
            Action::RequestCompletion { request },
        )
    }

    /// The completion call came back while the session was waiting for it.
    fn take_completion(self, response: &RemoteResponse) -> (outcome: (Session, Action))
        requires
            self@.phase is RequestInFlight,
        ensures
            outcome.0@ == next_state(
                self@,
                EventView::CompletionReturned { response: response@ },
            ),
            outcome.1@ == action_for(self@, EventView::CompletionReturned { response: response@ }),
            consistent(outcome.0@),
    {
        proof {
            use_type_invariant(&self);
        }
        match read_reply(response) {
            Ok(reply) => {
                let Session { model, mut log, summary, phase: _ } = self;
                let mut line = model.clone();
                line.append(": ");
                line.append(reply.as_str());
                line.append("\n");
                log.append(Message::new(Role::Assistant, reply));
                if log.exchange_count() > FULL_HISTORY_EXCHANGES {
                    let end = log.len() - WINDOW_MESSAGES;
                    let fresh = slice_subrange(log.messages(), summary.covered(), end);
                    assert(message_views(fresh@) =~= summary_input(log@, summary@.covered));
                    let request = summary_request(as_text(summary.text()), fresh);
                    (
                        Session { model, log, summary, phase: Phase::Summarizing },
                        Action::Deliver { line, summarize: Some(request) },
                    )
                } else {
                    (
                        Session { model, log, summary, phase: Phase::AwaitingInput },
                        Action::Deliver { line, summarize: None },
                    )
                }
            },
            Err(error) => {
                let idle = Session { phase: Phase::AwaitingInput, ..self };
                (idle, Action::Report { line: error.message() })
            },
        }
    }

    /// The summarization call came back while the session was waiting for
    /// it.
    fn take_summary(self, response: &RemoteResponse) -> (outcome: (Session, Action))
        requires
            self@.phase is Summarizing,
        ensures
            outcome.0@ == next_state(self@, EventView::SummaryReturned { response: response@ }),
            outcome.1@ == action_for(self@, EventView::SummaryReturned { response: response@ }),
            consistent(outcome.0@),
    {
        proof {
            use_type_invariant(&self);
        }
        match read_summary(response) {
            Ok(text) => {
                let Session { model, log, mut summary, phase: _ } = self;
                let covered = log.len() - WINDOW_MESSAGES;
                summary.update(text, covered);
                (Session { model, log, summary, phase: Phase::AwaitingInput }, Action::AwaitInput)
            },
            Err(error) => {
                let idle = Session { phase: Phase::AwaitingInput, ..self };
                (idle, Action::Report { line: error.message() })
            },
        }
    }

    /// The phase the session is in.
    pub fn phase(&self) -> (phase: Phase)
        ensures
            phase == self@.phase,
    {
        self.phase
    }

    /// The model the session converses with.
    pub fn model(&self) -> (model: &str)
        ensures
            model@ == self@.model,
    {
        self.model.as_str()
    }

    /// The message log.
    pub fn conversation(&self) -> (log: &Conversation)
        ensures
            log@ == self@.log,
    {
        &self.log
    }

    /// The rolling summary.
    pub fn summary(&self) -> (summary: &RollingSummary)
        ensures
            summary@ == self@.summary,
            consistent(self@),
    {
        proof {
            use_type_invariant(self);
        }
        &self.summary
    }
}

} // verus!
