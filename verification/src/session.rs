//! One run of the tool, from its arguments to what it prints.
//!
//! A run starts with the two arguments and the credential, and leads to a
//! request. The caller sends it and hands back what came of it; the run
//! ends with one line for the standard output or for the standard error.

use vstd::prelude::*;
use crate::cleaner::{clean_response, cleaned};
use crate::client::{
    build_request, is_request_for, receive, suggestions, FetchError, Request, DECODE_FAILURE,
};
use crate::json::json_document;
use crate::prompt::{build_prompt, prompt_text};

verus! {

/// What a run without a credential ends with.
pub const MISSING_TOKEN: &'static str = "API_TOKEN not set in .env file";

/// What a failure report starts with.
pub const ERROR_PREFIX: &'static str = "Error: ";

/// Why a run cannot start.
#[derive(Debug, PartialEq, Eq, Structural)]
pub enum ConfigError {
    /// The environment holds no credential.
    MissingToken,
}

impl ConfigError {
    /// Says what is missing.
    pub fn message(&self) -> (text: String)
        ensures
            text@ == MISSING_TOKEN@,
    {
        String::from_str(MISSING_TOKEN)
    }
}

/// What a run prints, and where.
#[derive(Clone, Debug, PartialEq, Eq)]
pub enum Output {
    /// The answer, for the standard output.
    Answer(String),
    /// The report of a failure, for the standard error.
    Failure(String),
}

/// Starts a run: builds the prompt for the two arguments and the request
/// that carries it. Without a credential nothing is built and nothing may
/// be sent.
pub fn start(technology: &str, purpose: &str, credential: Option<&str>) -> (step: Result<
    Request,
    ConfigError,
>)
    ensures
        match credential {
            Some(token) => step matches Ok(request) && is_request_for(
                request,
                token@,
                prompt_text(technology@, purpose@),
            ),
            None => step matches Err(error) && error == ConfigError::MissingToken,
        },
{
    match credential {
        Some(token) => {
            let prompt = build_prompt(technology, purpose);
            Ok(build_request(token, prompt.as_str()))
        },
        None => Err(ConfigError::MissingToken),
    }
}

/// What is printed for the suggestions or the failure that the exchange
/// gave: the suggestions without their preamble, or the failure's
/// description behind `Error: `.
pub open spec fn is_report_of(result: Result<String, FetchError>, output: Output) -> bool {
    match result {
        Ok(text) => output matches Output::Answer(answer) && answer@ == cleaned(text@),
        Err(error) => output matches Output::Failure(line) && line@ == ERROR_PREFIX@
            + error.description_text(),
    }
}

/// Says what to print for the suggestions or the failure.
pub fn report(result: Result<String, FetchError>) -> (output: Output)
    ensures
        is_report_of(result, output),
{
    match result {
        Ok(text) => Output::Answer(clean_response(text.as_str())),
        Err(error) => {
            let mut line = String::from_str(ERROR_PREFIX);
            let description = error.description();
            line.append(description.as_str());
            Output::Failure(line)
        },
    }
}

/// What a run ends with, for each outcome of the exchange. A reply that
/// holds a JSON document gives its suggestions without their preamble, as
/// the answer. A reply that holds none, and an exchange that failed, give a
/// failure report.
pub open spec fn is_end_of(outcome: Result<Vec<u8>, String>, output: Output) -> bool {
    match outcome {
        Ok(body) => match json_document(body@) {
            Some(reply) => output matches Output::Answer(answer) && answer@ == cleaned(
                suggestions(reply),
            ),
            None => output matches Output::Failure(line) && line@ == ERROR_PREFIX@
                + DECODE_FAILURE@,
        },
        Err(description) => output matches Output::Failure(line) && line@ == ERROR_PREFIX@
            + description@,
    }
}

/// Ends a run: says what to print for the outcome of the exchange. The
/// caller hands in the body of the reply, or the description of what went
/// wrong on the way.
pub fn finish(outcome: Result<Vec<u8>, String>) -> (output: Output)
    ensures
        is_end_of(outcome, output),
{
    let result = receive(outcome);
    report(result)
}

} // verus!
