//! What surrounds a request to the model: the address, the credentials, the
//! messages, and what is made of the answer.

use crate::ai::prompts::{PromptBundle, TaskKind};
use crate::text::{ends_with, has_suffix, trim, trim_end_matches, trimmed, without_trailing};
use vstd::prelude::*;
use vstd::string::StringExecFns;

verus! {

/// Why a request to the model did not come about or gave nothing.
#[derive(Debug)]
pub enum AiClientError {
    EmptyApiKey,
    Http(String),
    MissingChoices,
}

impl AiClientError {
    /// The text of the message, as a sequence of characters.
    pub open spec fn message_text(self) -> Seq<char> {
        match self {
            AiClientError::EmptyApiKey => "api key is empty"@,
            AiClientError::Http(detail) => "http error: "@ + detail@,
            AiClientError::MissingChoices => "api response missing choices"@,
        }
    }

    /// The message to show for this error.
    pub fn message(&self) -> (text: String)
        ensures
            text@ == self.message_text(),
    {
        match self {
            AiClientError::EmptyApiKey => "api key is empty".to_owned(),
            AiClientError::Http(detail) => {
                let mut text = "http error: ".to_owned();
                text.append(detail.as_str());
                text
            },
            AiClientError::MissingChoices => "api response missing choices".to_owned(),
        }
    }
}

/// A text that the model has worked on.
#[derive(Debug, Clone)]
pub struct ProcessedText {
    pub task_kind: TaskKind,
    pub source_text: String,
    pub result_text: String,
    pub used_model: String,
    pub elapsed_ms: u128,
}

/// The outcome of a test of the connection.
#[derive(Debug, Clone)]
pub struct ApiConnectionTest {
    pub model: String,
    pub message: String,
    pub elapsed_ms: u128,
}

/// One piece of an answer that arrives in pieces.
#[derive(Debug, Clone)]
pub struct StreamChunkPayload {
    pub stream_id: String,
    pub chunk: String,
}

/// The end of an answer that arrived in pieces.
#[derive(Debug, Clone)]
pub struct StreamDonePayload {
    pub stream_id: String,
    pub full_text: String,
    pub elapsed_ms: u128,
}

/// The failure of an answer that was to arrive in pieces.
#[derive(Debug, Clone)]
pub struct StreamErrorPayload {
    pub stream_id: String,
    pub error: String,
}

/// One message of a request.
#[derive(Debug, Clone)]
pub struct ChatMessage {
    pub role: &'static str,
    pub content: String,
}

/// The address for chat completions under a base address: the base without
/// the slashes at its end, followed by `/chat/completions` unless it ends so
/// already.
pub open spec fn chat_completions_url(base_url: Seq<char>) -> Seq<char> {
    let base = without_trailing(base_url, '/');
    if has_suffix(base, "/chat/completions"@) {
        base
    } else {
        base + "/chat/completions"@
    }
}

/// Builds the address to which chat requests are sent.
pub fn build_chat_completions_url(base_url: &str) -> (url: String)
    ensures
        url@ == chat_completions_url(base_url@),
{
    let base = trim_end_matches(base_url, '/');
    if ends_with(base, "/chat/completions") {
        base.to_owned()
    } else {
        let mut url = base.to_owned();
        url.append("/chat/completions");
        url
    }
}

/// Whether a key is missing: nothing is left of it without white space.
pub open spec fn key_is_blank(api_key: Seq<char>) -> bool {
    trimmed(api_key).len() == 0
}

/// The value of the header that carries the key: `Bearer`, a space, and the
/// key without surrounding white space. A blank key is refused.
pub fn bearer_authorization(api_key: &str) -> (header: Result<String, AiClientError>)
    ensures
        key_is_blank(api_key@) <==> header is Err,
        header matches Err(error) ==> error == AiClientError::EmptyApiKey,
        header matches Ok(value) ==> value@ == "Bearer "@ + trimmed(api_key@),
{
    let key = trim(api_key);
    if key.is_empty() {
        Err(AiClientError::EmptyApiKey)
    } else {
        let mut value = "Bearer ".to_owned();
        value.append(key);
        Ok(value)
    }
}

/// The messages of a request for a task: the instructions, then the text.
pub fn prompt_messages(prompt: PromptBundle) -> (messages: Vec<ChatMessage>)
    ensures
        messages@.len() == 2,
        messages@[0].role@ == "system"@,
        messages@[0].content@ == prompt.system@,
        messages@[1].role@ == "user"@,
        messages@[1].content@ == prompt.user@,
{
    let mut messages: Vec<ChatMessage> = Vec::new();
    messages.push(ChatMessage { role: "system", content: prompt.system });
    messages.push(ChatMessage { role: "user", content: prompt.user });
    messages
}

/// The messages of a request that only tests the connection.
pub fn connection_test_messages() -> (messages: Vec<ChatMessage>)
    ensures
        messages@.len() == 2,
        messages@[0].role@ == "system"@,
        messages@[0].content@ == "You are an API connectivity checker. Reply briefly."@,
        messages@[1].role@ == "user"@,
        messages@[1].content@ == "Respond with: API connection successful."@,
{
    let mut messages: Vec<ChatMessage> = Vec::new();
    messages.push(
        ChatMessage {
            role: "system",
            content: "You are an API connectivity checker. Reply briefly.".to_owned(),
        },
    );
    messages.push(
        ChatMessage { role: "user", content: "Respond with: API connection successful.".to_owned() },
    );
    messages
}

/// The answer of the model, given the content of each choice it sent: the
/// first, without surrounding white space. No choice, or a blank first one,
/// counts as no answer.
pub fn first_choice_text(choices: &Vec<String>) -> (answer: Result<String, AiClientError>)
    ensures
        answer is Ok <==> choices@.len() > 0 && trimmed(choices@[0]@).len() > 0,
        answer matches Ok(text) ==> text@ == trimmed(choices@[0]@),
        answer matches Err(error) ==> error == AiClientError::MissingChoices,
{
    if choices.len() == 0 {
        return Err(AiClientError::MissingChoices);
    }
    let text = trim(choices[0].as_str());
    if text.is_empty() {
        Err(AiClientError::MissingChoices)
    } else {
        Ok(text.to_owned())
    }
}

/// What to hand back for a task once the model has answered: the answer is
/// the first choice, as [`first_choice_text`] reads it.
pub fn processed_text(
    task_kind: TaskKind,
    source_text: &str,
    choices: &Vec<String>,
    used_model: &str,
    elapsed_ms: u128,
) -> (result: Result<ProcessedText, AiClientError>)
    ensures
        result is Ok <==> choices@.len() > 0 && trimmed(choices@[0]@).len() > 0,
        result matches Err(error) ==> error == AiClientError::MissingChoices,
        result matches Ok(processed) ==> {
            &&& processed.task_kind == task_kind
            &&& processed.source_text@ == source_text@
            &&& processed.result_text@ == trimmed(choices@[0]@)
            &&& processed.used_model@ == used_model@
            &&& processed.elapsed_ms == elapsed_ms
        },
{
    match first_choice_text(choices) {
        Ok(result_text) => Ok(
            ProcessedText {
                task_kind,
                source_text: source_text.to_owned(),
                result_text,
                used_model: used_model.to_owned(),
                elapsed_ms,
            },
        ),
        Err(error) => Err(error),
    }
}

/// What to hand back for a test of the connection once the model has
/// answered.
pub fn connection_test_result(choices: &Vec<String>, model: &str, elapsed_ms: u128) -> (result:
    Result<ApiConnectionTest, AiClientError>)
    ensures
        result is Ok <==> choices@.len() > 0 && trimmed(choices@[0]@).len() > 0,
        result matches Err(error) ==> error == AiClientError::MissingChoices,
        result matches Ok(test) ==> {
            &&& test.model@ == model@
            &&& test.message@ == trimmed(choices@[0]@)
            &&& test.elapsed_ms == elapsed_ms
        },
{
    match first_choice_text(choices) {
        Ok(message) => Ok(ApiConnectionTest { model: model.to_owned(), message, elapsed_ms }),
        Err(error) => Err(error),
    }
}

/// What is announced when an answer that was to arrive in pieces fails.
pub fn stream_error_payload(stream_id: String, error: &AiClientError) -> (payload:
    StreamErrorPayload)
    ensures
        payload.stream_id@ == stream_id@,
        payload.error@ == error.message_text(),
{
    StreamErrorPayload { stream_id, error: error.message() }
}

} // verus!
