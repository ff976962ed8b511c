//! The exchange with the inference endpoint: what is sent, and what is made
//! of the reply.
//!
//! Nothing here touches the network. The request is a value that the caller
//! sends, and the reply comes back as the bytes of its body.

use vstd::prelude::*;
use crate::json::{
    json_document, json_object_text, json_of, parse_value, write_json_object, Json, JsonModel,
};

verus! {

/// Where the hosted models are reached.
pub const API_BASE_URL: &'static str = "https://api-inference.huggingface.co/models/";

/// The model that is asked.
pub const MODEL: &'static str = "deepseek-ai/DeepSeek-R1-Distill-Qwen-32B";

/// The variable of the environment that holds the credential.
pub const TOKEN_VARIABLE: &'static str = "API_TOKEN";

/// The method of the request.
pub const METHOD: &'static str = "POST";

/// The header that carries the credential.
pub const AUTHORIZATION_HEADER: &'static str = "Authorization";

/// What the `Authorization` header says before the credential.
pub const BEARER: &'static str = "Bearer ";

/// The header that says what the body is.
pub const CONTENT_TYPE_HEADER: &'static str = "Content-Type";

/// The content type of the request.
pub const CONTENT_TYPE: &'static str = "application/json";

/// The member of the request's body that holds the prompt.
pub const INPUTS: &'static str = "inputs";

/// The member of the reply's first element that holds the model's text.
pub const GENERATED_TEXT: &'static str = "generated_text";

/// What stands for the model's text where the reply has none.
pub const NO_SUGGESTIONS: &'static str = "No suggestions found";

/// One HTTP request to the endpoint.
#[derive(Clone, Debug, PartialEq, Eq)]
pub struct Request {
    /// The method.
    pub method: String,
    /// The address that the request goes to.
    pub url: String,
    /// The value of the `Authorization` header.
    pub authorization: String,
    /// The value of the `Content-Type` header.
    pub content_type: String,
    /// The body.
    pub body: String,
}

/// The address of the model.
pub open spec fn endpoint() -> Seq<char> {
    API_BASE_URL@ + MODEL@
}

/// Whether `request` is the one that carries `prompt` under the credential
/// `token`.
pub open spec fn is_request_for(request: Request, token: Seq<char>, prompt: Seq<char>) -> bool {
    &&& request.method@ == METHOD@
    &&& request.url@ == endpoint()
    &&& request.authorization@ == BEARER@ + token
    &&& request.content_type@ == CONTENT_TYPE@
    &&& request.body@ == json_object_text(INPUTS@, prompt)
}

/// The model's text in a reply: the string that the member `generated_text`
/// of the first element of the array holds. `None` for any other shape.
pub open spec fn generated_text(reply: JsonModel) -> Option<Seq<char>> {
    match reply.element(0) {
        Some(first) => match first.member(GENERATED_TEXT@) {
            Some(field) => field.text(),
            None => None,
        },
        None => None,
    }
}

/// The suggestions in a reply: the model's text, or the fixed text that
/// stands for it where the reply has none.
pub open spec fn suggestions(reply: JsonModel) -> Seq<char> {
    match generated_text(reply) {
        Some(text) => text,
        None => NO_SUGGESTIONS@,
    }
}

/// Builds the request for a prompt: a POST to the model's address, with the
/// credential as a bearer token and the body `{"inputs": prompt}`.
pub fn build_request(token: &str, prompt: &str) -> (request: Request)
    ensures
        is_request_for(request, token@, prompt@),
{
    let mut url = String::from_str(API_BASE_URL);
    url.append(MODEL);
    let mut authorization = String::from_str(BEARER);
    authorization.append(token);
    Request {
        method: String::from_str(METHOD),
        url,
        authorization,
        content_type: String::from_str(CONTENT_TYPE),
        body: write_json_object(INPUTS, prompt),
    }
}

/// Takes the suggestions out of a reply. A reply of another shape than the
/// expected one is no failure: it gives the fixed text.
pub fn suggestions_in(reply: &Json) -> (text: String)
    ensures
        text@ == suggestions(reply@),
{
    let found = match reply.element(0) {
        Some(first) => match first.member(GENERATED_TEXT) {
            Some(field) => field.text(),
            None => None,
        },
        None => None,
    };
    match found {
        Some(text) => String::from_str(text),
        None => String::from_str(NO_SUGGESTIONS),
    }
}

/// Why no suggestions came back.
#[derive(Clone, Debug, PartialEq, Eq)]
pub enum FetchError {
    /// The request did not go through or its reply did not arrive; the text
    /// is the transport's own description.
    Transport(String),
    /// The body of the reply is no JSON document.
    Decode,
}

/// How a reply that is no JSON document is described.
pub const DECODE_FAILURE: &'static str = "error decoding response body";

impl FetchError {
    /// The description of the failure.
    pub open spec fn description_text(self) -> Seq<char> {
        match self {
            FetchError::Transport(description) => description@,
            FetchError::Decode => DECODE_FAILURE@,
        }
    }

    /// Describes the failure.
    pub fn description(&self) -> (text: String)
        ensures
            text@ == self.description_text(),
    {
        match self {
            FetchError::Transport(description) => description.clone(),
            FetchError::Decode => String::from_str(DECODE_FAILURE),
        }
    }
}

/// Reads the body of a reply as a JSON document. This fails exactly where
/// the body holds none.
pub fn parse_reply(body: &[u8]) -> (result: Result<Json, FetchError>)
    ensures
        match json_document(body@) {
            Some(reply) => result matches Ok(json) && json@ == reply,
            None => result matches Err(error) && error is Decode,
        },
{
    match parse_value(body) {
        Ok(value) => Ok(json_of(value)),
        Err(_) => Err(FetchError::Decode),
    }
}

/// What the body of a reply gives: the suggestions of the document that it
/// holds, or a failure where it holds none.
pub open spec fn body_gives(body: Seq<u8>, result: Result<String, FetchError>) -> bool {
    match json_document(body) {
        Some(reply) => result matches Ok(text) && text@ == suggestions(reply),
        None => result matches Err(error) && error is Decode,
    }
}

/// Reads the suggestions from the body of a reply. This fails only where
/// the body is no JSON document; a document of another shape than the
/// expected one gives the fixed text.
pub fn read_suggestions(body: &[u8]) -> (result: Result<String, FetchError>)
    ensures
        body_gives(body@, result),
{
    match parse_reply(body) {
        Ok(reply) => Ok(suggestions_in(&reply)),
        Err(error) => Err(error),
    }
}

/// What the outcome of the exchange gives: what the body of the reply gives
/// where one arrived, and the transport's failure where none did.
pub open spec fn exchange_gives(
    outcome: Result<Vec<u8>, String>,
    result: Result<String, FetchError>,
) -> bool {
    match outcome {
        Ok(body) => body_gives(body@, result),
        Err(description) => result matches Err(error) && error matches FetchError::Transport(
            text,
        ) && text@ == description@,
    }
}

/// Turns the outcome of the exchange into the suggestions or the failure.
/// The caller hands in the body of the reply, or the description of what
/// went wrong on the way.
pub fn receive(outcome: Result<Vec<u8>, String>) -> (result: Result<String, FetchError>)
    ensures
        exchange_gives(outcome, result),
{
    match outcome {
        Ok(body) => read_suggestions(body.as_slice()),
        Err(description) => Err(FetchError::Transport(description)),
    }
}

} // verus!
