//! The remote chat-completion service, seen from the conversation's side:
//! what is asked of it, what comes back, and how a reply is read.

use vstd::prelude::*;
use crate::message::{Message, MessageView, message_views};

verus! {

/// A request to the service: the model to ask and the messages to send.
#[derive(Debug)]
pub struct ChatRequest {
    pub model: String,
    pub messages: Vec<Message>,
}

/// What a request is, as a mathematical value.
pub struct ChatRequestView {
    pub model: Seq<char>,
    pub messages: Seq<MessageView>,
}

impl View for ChatRequest {
    type V = ChatRequestView;

    open spec fn view(&self) -> ChatRequestView {
        ChatRequestView { model: self.model@, messages: message_views(self.messages@) }
    }
}

/// The outcome of one call to the service, as the transport reports it.
#[derive(Debug)]
pub enum RemoteResponse {
    /// The service answered with a success status; `choices` holds the text
    /// of each candidate reply, in the order the service gave them.
    Answered { choices: Vec<String> },
    /// The call did not succeed: the transport failed or the service
    /// answered with a status other than success. `detail` is the text that
    /// came with the failure.
    Failed { detail: String },
}

/// What an outcome is, as a mathematical value.
pub enum RemoteResponseView {
    Answered { choices: Seq<Seq<char>> },
    Failed { detail: Seq<char> },
}

/// The views of a sequence of texts, in order.
pub open spec fn text_views(texts: Seq<String>) -> Seq<Seq<char>> {
    texts.map_values(|t: String| t@)
}

impl View for RemoteResponse {
    type V = RemoteResponseView;

    open spec fn view(&self) -> RemoteResponseView {
        match *self {
            RemoteResponse::Answered { choices } => RemoteResponseView::Answered {
                choices: text_views(choices@),
            },
            RemoteResponse::Failed { detail } => RemoteResponseView::Failed { detail: detail@ },
        }
    }
}

/// Why a call to the service produced no reply.
#[derive(Debug)]
pub enum ChatError {
    /// The transport failed or the service refused the request.
    TransportOrRemote { detail: String },
    /// The service answered with a success status but offered no choice.
    EmptyResponse,
}

/// What a failure is, as a mathematical value.
pub enum ChatErrorView {
    TransportOrRemote { detail: Seq<char> },
    EmptyResponse,
}

impl View for ChatError {
    type V = ChatErrorView;

    open spec fn view(&self) -> ChatErrorView {
        match *self {
            ChatError::TransportOrRemote { detail } => ChatErrorView::TransportOrRemote {
                detail: detail@,
            },
            ChatError::EmptyResponse => ChatErrorView::EmptyResponse,
        }
    }
}

/// The reply that an outcome carries: the first choice of an answer, or the
/// reason why there is none.
pub open spec fn reply_of(response: RemoteResponseView) -> Result<Seq<char>, ChatErrorView> {
    match response {
        RemoteResponseView::Answered { choices } => if choices.len() > 0 {
            Ok(choices[0])
        } else {
            Err(ChatErrorView::EmptyResponse)
        },
        RemoteResponseView::Failed { detail } => Err(
            ChatErrorView::TransportOrRemote { detail },
        ),
    }
}

/// The view of a reply or of the failure in its place.
pub open spec fn reply_view(reply: Result<String, ChatError>) -> Result<Seq<char>, ChatErrorView> {
    match reply {
        Ok(text) => Ok(text@),
        Err(error) => Err(error@),
    }
}

/// The line that reports a failed completion call.
pub open spec fn completion_failure_text(error: ChatErrorView) -> Seq<char> {
    match error {
        ChatErrorView::TransportOrRemote { detail } => "Error: "@ + detail,
        ChatErrorView::EmptyResponse => "No response returned by the API."@,
    }
}

/// Reads the reply out of an outcome.
pub fn read_reply(response: &RemoteResponse) -> (reply: Result<String, ChatError>)
    ensures
        reply_view(reply) == reply_of(response@),
{
    match response {
        RemoteResponse::Answered { choices } => {
            if choices.len() > 0 {
                Ok(choices[0].clone())
            } else {
                Err(ChatError::EmptyResponse)
            }
        },
        RemoteResponse::Failed { detail } => Err(
            ChatError::TransportOrRemote { detail: detail.clone() },
        ),
    }
}

impl ChatError {
    /// The line that reports this failure of a completion call.
    pub fn message(&self) -> (text: String)
        ensures
            text@ == completion_failure_text(self@),
    {
        match self {
            ChatError::TransportOrRemote { detail } => {
                let mut text = String::from_str("Error: ");
                text.append(detail.as_str());
                text
            },
            ChatError::EmptyResponse => String::from_str("No response returned by the API."),
        }
    }
}

} // verus!
