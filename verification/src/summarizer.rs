//! The rolling summary: the digest of everything older than the active
//! window, and the requests that bring it up to date.
//!
//! The summary records how many leading messages of the log it accounts
//! for. A summarization call is handed everything that lies between that
//! mark and the active window, and the mark moves only when the call
//! succeeds. While every turn adds a question and its answer, that is
//! exactly the one exchange that has just left the window. After a turn that
//! ended without a reply, or a summarization that failed, it is more: the
//! digest of a message may come late, but no message is ever left out of
//! both the summary and the window for good.

use vstd::prelude::*;
use crate::context::{WINDOW_MESSAGES, text_view};
use crate::message::{Message, MessageView, Role, append_message_lines, message_lines, message_views};
use crate::remote::{
    ChatError,
    ChatErrorView,
    ChatRequest,
    ChatRequestView,
    RemoteResponse,
    read_reply,
    reply_of,
};

verus! {

/// The model that writes summaries, whatever model the conversation uses.
pub const SUMMARY_MODEL: &'static str = "gpt-4o";

/// The standing instruction to the summarizing model.
pub const SUMMARIZER_BRIEF: &'static str =
    "You are a helpful assistant tasked with summarizing a conversation. Try to keep the summary short, but make sure to include each relevant bullet point. I would rather you make the summary longer than forget things.:w\n.";

/// How a summarization prompt opens: with the task alone when there is no
/// summary yet, otherwise with the current summary and the task of
/// extending it.
pub open spec fn instruction_opening(prior: Option<Seq<char>>) -> Seq<char> {
    match prior {
        Some(summary) => "Current summary:\n"@ + summary
            + "\n\nAdd the following new exchange to the summary, try your hardest to retain as much information as possible:\n"@,
        None => "Summarize the following conversation in under 200 words:\n"@,
    }
}

/// The prompt that asks for a summary of `fresh`, merged into `prior` when
/// there is one.
pub open spec fn summary_instruction(prior: Option<Seq<char>>, fresh: Seq<MessageView>) -> Seq<
    char,
> {
    instruction_opening(prior) + message_lines(fresh) + "\nPlease provide an updated summary."@
}

/// The request that asks for a summary of `fresh`, merged into `prior` when
/// there is one.
pub open spec fn summary_request_view(
    prior: Option<Seq<char>>,
    fresh: Seq<MessageView>,
) -> ChatRequestView {
    ChatRequestView {
        model: SUMMARY_MODEL@,
        messages: seq![
            MessageView { role: Role::System, content: SUMMARIZER_BRIEF@ },
            MessageView { role: Role::User, content: summary_instruction(prior, fresh) },
        ],
    }
}

/// The view of an optional borrowed text.
pub open spec fn str_view(text: Option<&str>) -> Option<Seq<char>> {
    match text {
        Some(t) => Some(t@),
        None => None,
    }
}

/// Writes the prompt that asks for a summary of `messages`.
pub fn summary_prompt(current_summary: Option<&str>, messages: &[Message]) -> (prompt: String)
    ensures
        prompt@ == summary_instruction(str_view(current_summary), message_views(messages@)),
{
    let mut prompt = String::new();
    match current_summary {
        Some(summary) => {
            prompt.append("Current summary:\n");
            prompt.append(summary);
            prompt.append(
                "\n\nAdd the following new exchange to the summary, try your hardest to retain as much information as possible:\n",
            );
        },
        None => {
            prompt.append("Summarize the following conversation in under 200 words:\n");
        },
    }
    assert(prompt@ =~= instruction_opening(str_view(current_summary)));
    append_message_lines(&mut prompt, messages);
    prompt.append("\nPlease provide an updated summary.");
    prompt
}

/// Builds the request that asks for a summary of `messages`, merged into
/// `current_summary` when there is one.
pub fn summary_request(current_summary: Option<&str>, messages: &[Message]) -> (request:
    ChatRequest)
    ensures
        request@ == summary_request_view(str_view(current_summary), message_views(messages@)),
{
    let brief = Message::new(Role::System, String::from_str(SUMMARIZER_BRIEF));
    let prompt = Message::new(Role::User, summary_prompt(current_summary, messages));
    let mut pair: Vec<Message> = Vec::new();
    pair.push(brief);
    pair.push(prompt);
    let request = ChatRequest { model: String::from_str(SUMMARY_MODEL), messages: pair };
    assert(request@.messages =~= summary_request_view(
        str_view(current_summary),
        message_views(messages@),
    ).messages);
    request
}

/// Why the rolling summary could not be brought up to date: the
/// summarization call failed in one of the ways any call can.
#[derive(Debug)]
pub struct SummarizationError {
    pub cause: ChatError,
}

impl View for SummarizationError {
    type V = ChatErrorView;

    open spec fn view(&self) -> ChatErrorView {
        self.cause@
    }
}

/// The line that reports a failed summarization call.
pub open spec fn summary_failure_text(error: ChatErrorView) -> Seq<char> {
    match error {
        ChatErrorView::TransportOrRemote { detail } => "Error summarizing: "@ + detail,
        ChatErrorView::EmptyResponse => "No summary returned by GPT-4o"@,
    }
}

impl SummarizationError {
    /// The line that reports this failure.
    pub fn message(&self) -> (text: String)
        ensures
            text@ == summary_failure_text(self@),
    {
        match &self.cause {
            ChatError::TransportOrRemote { detail } => {
                let mut text = String::from_str("Error summarizing: ");
                text.append(detail.as_str());
                text
            },
            ChatError::EmptyResponse => String::from_str("No summary returned by GPT-4o"),
        }
    }
}

/// The view of a summary text or of the failure in its place.
pub open spec fn summary_outcome_view(outcome: Result<String, SummarizationError>) -> Result<
    Seq<char>,
    ChatErrorView,
> {
    match outcome {
        Ok(text) => Ok(text@),
        Err(error) => Err(error@),
    }
}

/// Reads the new summary out of the outcome of a summarization call.
pub fn read_summary(response: &RemoteResponse) -> (outcome: Result<String, SummarizationError>)
    ensures
        summary_outcome_view(outcome) == reply_of(response@),
{
    match read_reply(response) {
        Ok(text) => Ok(text),
        Err(cause) => Err(SummarizationError { cause }),
    }
}

/// What a rolling summary is, as a mathematical value: its text, if it has
/// been created, and the number of leading messages of the log that the text
/// accounts for.
pub struct SummaryView {
    pub text: Option<Seq<char>>,
    pub covered: nat,
}

/// The rolling summary of a conversation. It starts absent; once created it
/// is only ever replaced, never cleared.
pub struct RollingSummary {
    text: Option<String>,
    covered: usize,
}

impl View for RollingSummary {
    type V = SummaryView;

    closed spec fn view(&self) -> SummaryView {
        SummaryView {
            text: match self.text {
                Some(t) => Some(t@),
                None => None,
            },
            covered: self.covered as nat,
        }
    }
}

/// The part of the log that the next summarization call must digest: what
/// lies between the messages already accounted for and the active window.
pub open spec fn summary_input(log: Seq<MessageView>, covered: nat) -> Seq<MessageView> {
    log.subrange(covered as int, log.len() - WINDOW_MESSAGES as int)
}

impl RollingSummary {
    /// A summary accounts for no message until it has a text.
    pub open spec fn well_formed(&self) -> bool {
        self@.text is None ==> self@.covered == 0
    }

    /// The summary of a conversation that has not been summarized yet.
    pub fn new() -> (summary: RollingSummary)
        ensures
            summary@ == (SummaryView { text: None, covered: 0 }),
            summary.well_formed(),
    {
        RollingSummary { text: None, covered: 0 }
    }

    /// The current text, if the summary has been created.
    pub fn text(&self) -> (text: &Option<String>)
        ensures
            text_view(*text) == self@.text,
    {
        &self.text
    }

    /// The number of leading messages of the log that the summary accounts
    /// for.
    pub fn covered(&self) -> (covered: usize)
        ensures
            covered == self@.covered,
    {
        self.covered
    }

    /// Replaces the summary by `new_value`, which accounts for the first
    /// `covered` messages of the log.
    pub fn update(&mut self, new_value: String, covered: usize)
        ensures
            final(self)@ == (SummaryView { text: Some(new_value@), covered: covered as nat }),
            final(self).well_formed(),
    {
        self.text = Some(new_value);
        self.covered = covered;
    }
}

} // verus!
