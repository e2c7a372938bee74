use chat_memory::message::{Message, Role};
use chat_memory::remote::{read_reply, ChatError, RemoteResponse};
use chat_memory::summarizer::{
    read_summary, summary_prompt, summary_request, RollingSummary, SummarizationError,
    SUMMARIZER_BRIEF, SUMMARY_MODEL,
};

fn exchange() -> Vec<Message> {
    vec![
        Message::new(Role::User, "What is Rust?".to_string()),
        Message::new(Role::Assistant, "A systems language.".to_string()),
    ]
}

#[test]
fn summary_model_is_fixed() {
    assert_eq!(SUMMARY_MODEL, "gpt-4o");
}

#[test]
fn fresh_prompt_asks_for_a_digest_under_two_hundred_words() {
    let prompt = summary_prompt(None, &exchange());
    assert_eq!(
        prompt,
        "Summarize the following conversation in under 200 words:\n\
         user: What is Rust?\n\
         assistant: A systems language.\n\
         \nPlease provide an updated summary."
    );
}

#[test]
fn merging_prompt_carries_the_current_summary() {
    let prompt = summary_prompt(Some("They talked about languages."), &exchange());
    assert_eq!(
        prompt,
        "Current summary:\nThey talked about languages.\n\n\
         Add the following new exchange to the summary, try your hardest to retain as much information as possible:\n\
         user: What is Rust?\n\
         assistant: A systems language.\n\
         \nPlease provide an updated summary."
    );
}

#[test]
fn prompt_for_no_messages_has_no_message_lines() {
    assert_eq!(
        summary_prompt(None, &[]),
        "Summarize the following conversation in under 200 words:\n\nPlease provide an updated summary."
    );
    assert_eq!(
        summary_prompt(Some(""), &[]),
        "Current summary:\n\n\nAdd the following new exchange to the summary, try your hardest to retain as much information as possible:\n\nPlease provide an updated summary."
    );
}

#[test]
fn prompt_shows_system_messages_by_their_label() {
    let messages = vec![Message::new(Role::System, "be brief".to_string())];
    assert_eq!(
        summary_prompt(None, &messages),
        "Summarize the following conversation in under 200 words:\nsystem: be brief\n\nPlease provide an updated summary."
    );
}

#[test]
fn summary_request_is_a_brief_and_a_prompt_for_the_summary_model() {
    let request = summary_request(Some("so far"), &exchange());
    assert_eq!(request.model, "gpt-4o");
    assert_eq!(request.messages.len(), 2);
    assert_eq!(request.messages[0].role(), Role::System);
    assert_eq!(request.messages[0].content(), SUMMARIZER_BRIEF);
    assert!(request.messages[0]
        .content()
        .starts_with("You are a helpful assistant tasked with summarizing a conversation."));
    assert_eq!(request.messages[1].role(), Role::User);
    assert_eq!(request.messages[1].content(), summary_prompt(Some("so far"), &exchange()));
}

#[test]
fn summary_request_without_prior_summary() {
    let request = summary_request(None, &exchange());
    assert_eq!(request.model, SUMMARY_MODEL);
    assert_eq!(request.messages.len(), 2);
    assert_eq!(request.messages[1].content(), summary_prompt(None, &exchange()));
    assert!(request.messages[1].content().starts_with("Summarize the following conversation"));
}

#[test]
fn reply_is_the_first_choice() {
    let response = RemoteResponse::Answered {
        choices: vec!["first".to_string(), "second".to_string()],
    };
    assert_eq!(read_reply(&response).unwrap(), "first");
    let response = RemoteResponse::Answered { choices: vec!["only".to_string()] };
    assert_eq!(read_reply(&response).unwrap(), "only");
}

#[test]
fn answer_without_choices_is_an_empty_response() {
    let response = RemoteResponse::Answered { choices: vec![] };
    let error = read_reply(&response).unwrap_err();
    assert!(matches!(error, ChatError::EmptyResponse));
    assert_eq!(error.message(), "No response returned by the API.");
}

#[test]
fn failed_call_is_a_transport_or_remote_error() {
    let response = RemoteResponse::Failed { detail: "429 too many requests".to_string() };
    let error = read_reply(&response).unwrap_err();
    match &error {
        ChatError::TransportOrRemote { detail } => assert_eq!(detail, "429 too many requests"),
        ChatError::EmptyResponse => panic!("wrong kind of failure"),
    }
    assert_eq!(error.message(), "Error: 429 too many requests");
}

#[test]
fn summary_is_the_first_choice() {
    let response = RemoteResponse::Answered {
        choices: vec!["digest".to_string(), "other".to_string()],
    };
    assert_eq!(read_summary(&response).unwrap(), "digest");
}

#[test]
fn summary_failures_are_scoped_to_summarization() {
    let empty = RemoteResponse::Answered { choices: vec![] };
    let error: SummarizationError = read_summary(&empty).unwrap_err();
    assert!(matches!(error.cause, ChatError::EmptyResponse));
    assert_eq!(error.message(), "No summary returned by GPT-4o");

    let failed = RemoteResponse::Failed { detail: "server on fire".to_string() };
    let error = read_summary(&failed).unwrap_err();
    assert!(matches!(error.cause, ChatError::TransportOrRemote { .. }));
    assert_eq!(error.message(), "Error summarizing: server on fire");
}

#[test]
fn rolling_summary_starts_absent() {
    let summary = RollingSummary::new();
    assert_eq!(summary.text(), &None);
    assert_eq!(summary.covered(), 0);
}

#[test]
fn rolling_summary_is_replaced_in_place() {
    let mut summary = RollingSummary::new();
    summary.update("first digest".to_string(), 2);
    assert_eq!(summary.text(), &Some("first digest".to_string()));
    assert_eq!(summary.covered(), 2);
    summary.update("second digest".to_string(), 4);
    assert_eq!(summary.text(), &Some("second digest".to_string()));
    assert_eq!(summary.covered(), 4);
}
