//! The request to the chat-completion endpoint, and the reading of its reply.

use vstd::prelude::*;
use crate::prompt::ChatMessage;

verus! {

/// The sampling temperature of a request that names none, in thousandths.
pub const DEFAULT_TEMPERATURE_PERMILLE: u32 = 700;

/// A chat-completion request. The temperature is held in thousandths, so
/// that 700 stands for 0.7.
#[derive(Debug)]
pub struct ChatRequest {
    pub model: String,
    pub messages: Vec<ChatMessage>,
    pub temperature_permille: u32,
}

/// The model of a request that names none.
pub open spec fn default_model_text() -> Seq<char> {
    "gpt-4-vision-preview"@
}

/// The address of the chat-completion endpoint.
pub open spec fn endpoint_text() -> Seq<char> {
    "https://api.openai.com/v1/chat/completions"@
}

/// The value of the authorization header for the credential `token`.
pub open spec fn authorization_text(token: Seq<char>) -> Seq<char> {
    "Bearer "@ + token
}

/// The model of a request that names none.
pub fn default_model() -> (r: String)
    ensures
        r@ == default_model_text(),
{
    String::from_str("gpt-4-vision-preview")
}

/// The address that requests are posted to.
pub fn endpoint() -> (r: String)
    ensures
        r@ == endpoint_text(),
{
    String::from_str("https://api.openai.com/v1/chat/completions")
}

/// The value of the authorization header: the bearer scheme and the
/// credential.
pub fn authorization(token: &str) -> (r: String)
    ensures
        r@ == authorization_text(token@),
{
    let mut r = String::from_str("Bearer ");
    r.append(token);
    r
}

/// Builds the request that carries `message` and nothing else.
pub fn build_request(message: ChatMessage, model: String, temperature_permille: u32) -> (request:
    ChatRequest)
    ensures
        request.model == model,
        request.messages@ == seq![message],
        request.temperature_permille == temperature_permille,
{
    let mut messages: Vec<ChatMessage> = Vec::new();
    messages.push(message);
    assert(messages@ =~= seq![message]);
    ChatRequest { model, messages, temperature_permille }
}

/// Builds the request that carries `message`, for the default model at the
/// default temperature.
pub fn default_request(message: ChatMessage) -> (request: ChatRequest)
    ensures
        request.model@ == default_model_text(),
        request.messages@ == seq![message],
        request.temperature_permille == DEFAULT_TEMPERATURE_PERMILLE,
{
    build_request(message, default_model(), DEFAULT_TEMPERATURE_PERMILLE)
}

/// The message of one choice of a reply.
#[derive(Debug)]
pub struct ReplyMessage {
    pub role: String,
    pub content: String,
}

/// One choice of a reply.
#[derive(Debug)]
pub struct Choice {
    pub message: ReplyMessage,
}

/// A reply of the endpoint, decoded.
#[derive(Debug)]
pub struct ChatResponse {
    pub choices: Vec<Choice>,
}

/// Why a reply gave no answer.
#[derive(Debug)]
pub enum ApiError {
    /// The body of the reply could not be decoded; the body is kept as
    /// it came.
    Malformed(String),
    /// The reply was decoded and holds no choice.
    NoChoice,
}

/// An error as a plain value.
pub enum ApiErrorModel {
    Malformed(Seq<char>),
    NoChoice,
}

impl View for ApiError {
    type V = ApiErrorModel;

    open spec fn view(&self) -> ApiErrorModel {
        match self {
            ApiError::Malformed(body) => ApiErrorModel::Malformed(body@),
            ApiError::NoChoice => ApiErrorModel::NoChoice,
        }
    }
}

/// What an error says. That of a malformed reply ends with the body of the
/// reply, letter for letter.
pub open spec fn error_text(error: ApiErrorModel) -> Seq<char> {
    match error {
        ApiErrorModel::Malformed(body) => "the reply is not a chat response: "@ + body,
        ApiErrorModel::NoChoice => "the reply holds no choice"@,
    }
}

impl ApiError {
    /// What the error says.
    pub fn message(&self) -> (text: String)
        ensures
            text@ == error_text(self@),
    {
        match self {
            ApiError::Malformed(body) => {
                let mut text = String::from_str("the reply is not a chat response: ");
                text.append(body.as_str());
                text
            },
            ApiError::NoChoice => String::from_str("the reply holds no choice"),
        }
    }
}

/// The answer that a decoded reply holds: the content of its first
/// choice's message.
pub open spec fn answer_text(choices: Seq<Choice>) -> Result<Seq<char>, ApiErrorModel> {
    if choices.len() > 0 {
        Ok(choices[0].message.content@)
    } else {
        Err(ApiErrorModel::NoChoice)
    }
}

/// What is made of a reply with body `body` that was decoded as `decoded`,
/// or could not be decoded.
pub open spec fn reply_outcome(body: Seq<char>, decoded: Option<ChatResponse>) -> Result<
    Seq<char>,
    ApiErrorModel,
> {
    match decoded {
        Some(response) => answer_text(response.choices@),
        None => Err(ApiErrorModel::Malformed(body)),
    }
}

/// The plain value of an outcome.
pub open spec fn outcome_model(outcome: Result<String, ApiError>) -> Result<
    Seq<char>,
    ApiErrorModel,
> {
    match outcome {
        Ok(answer) => Ok(answer@),
        Err(error) => Err(error@),
    }
}

/// Takes the answer out of a decoded reply: the content of the first
/// choice's message. A reply without a choice is an error.
pub fn answer_of(response: &ChatResponse) -> (outcome: Result<String, ApiError>)
    ensures
        outcome_model(outcome) == answer_text(response.choices@),
{
    if response.choices.len() > 0 {
        Ok(response.choices[0].message.content.clone())
    } else {
        Err(ApiError::NoChoice)
    }
}

/// Interprets a reply. Where its body could not be decoded, the error
/// carries the body as it came; else the answer is that of the decoded
/// reply.
pub fn interpret_reply(body: &str, decoded: Option<ChatResponse>) -> (outcome: Result<
    String,
    ApiError,
>)
    ensures
        outcome_model(outcome) == reply_outcome(body@, decoded),
{
    match decoded {
        Some(response) => answer_of(&response),
        None => Err(ApiError::Malformed(String::from_str(body))),
    }
}

/// The error of a reply that could not be decoded says the whole body of
/// that reply, as the end of its text.
pub proof fn lemma_malformed_reply_is_quoted(body: Seq<char>)
    ensures
        reply_outcome(body, None) == Err::<Seq<char>, ApiErrorModel>(
            ApiErrorModel::Malformed(body),
        ),
        error_text(ApiErrorModel::Malformed(body)).len() >= body.len(),
        error_text(ApiErrorModel::Malformed(body)).skip(
            error_text(ApiErrorModel::Malformed(body)).len() - body.len(),
        ) == body,
{
    let head = "the reply is not a chat response: "@;
    assert((head + body).skip(head.len() as int) =~= body);
}

} // verus!
