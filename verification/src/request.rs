//! Assembling the provider request for one attempt.
//!
//! The chat-completion request itself is a value of the provider SDK; it is
//! assembled here, behind trusted declarations, and handed back opaque for
//! the caller to dispatch. A request carries exactly two messages: the
//! system instruction and the user content of one conversation turn.

use vstd::prelude::*;
use async_openai::error::OpenAIError;
use async_openai::types::chat::ChatCompletionRequestSystemMessageArgs;
use async_openai::types::chat::ChatCompletionRequestUserMessageArgs;
use async_openai::types::chat::CreateChatCompletionRequest;
use async_openai::types::chat::CreateChatCompletionRequestArgs;
use crate::llm::LlmError;
use crate::prompts::Turn;

verus! {

#[verifier::external_type_specification]
#[verifier::external_body]
pub struct ExCreateChatCompletionRequest(CreateChatCompletionRequest);

#[verifier::external_type_specification]
#[verifier::external_body]
pub struct ExOpenAIError(OpenAIError);

/// The request the async_openai builders assemble from a model identifier, a
/// system text, and a user text: a function of those arguments alone.
pub uninterp spec fn chat_request_of(
    model: Seq<char>,
    system: Seq<char>,
    user: Seq<char>,
) -> CreateChatCompletionRequest;

/// Relies on async_openai's builders for the two chat messages and the
/// request: every field of these builder types carries a default, so `build`
/// has no unset required field to report and returns the assembled value,
/// which depends on the three arguments alone.
#[verifier::external_body]
fn build_chat_request(model: &str, system: &str, user: &str) -> (r: Result<
    CreateChatCompletionRequest,
    OpenAIError,
>)
    ensures
        r is Ok,
        r->Ok_0 == chat_request_of(model@, system@, user@),
{
    let sys = match ChatCompletionRequestSystemMessageArgs::default().content(system).build() {
        Ok(m) => m,
        Err(e) => return Err(e),
    };
    let usr = match ChatCompletionRequestUserMessageArgs::default().content(user).build() {
        Ok(m) => m,
        Err(e) => return Err(e),
    };
    CreateChatCompletionRequestArgs::default().model(model).messages([sys.into(), usr.into()])
        .build()
}

/// Relies on OpenAIError's Display implementation for the error detail text.
#[verifier::external_body]
fn openai_error_message(e: &OpenAIError) -> String {
    format!("{e}")
}

/// Builds the chat-completion request for one attempt against `model`: one
/// system-role message and one user-role message, each taking the turn's full
/// corresponding text. A build failure — which the assembled builders never
/// report — would be a definitive provider-side error, never retried.
pub fn prepare_request(model: &str, turn: &Turn) -> (r: Result<
    CreateChatCompletionRequest,
    LlmError,
>)
    ensures
        r is Ok,
        r->Ok_0 == chat_request_of(model@, turn.system@, turn.user@),
{
    match build_chat_request(model, turn.system.as_str(), turn.user.as_str()) {
        Ok(req) => Ok(req),
        Err(e) => Err(LlmError::Api(openai_error_message(&e))),
    }
}

} // verus!
