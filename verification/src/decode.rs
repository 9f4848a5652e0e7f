//! Turning one HTTP exchange into exactly one worker outcome.
//!
//! The worker never retries and never branches on the shape of the reply:
//! the deployment declares one response [`Schema`], and the decoder either
//! extracts the generated text at that schema's path or reports a failure
//! that preserves the raw body for diagnosis.

use vstd::prelude::*;
use vstd::string::StringExecFns;

use crate::encode::dec_digits;

verus! {

/// Which provider response shape the deployment was configured for.  This
/// is a configuration choice made once per deployment, not a runtime branch
/// on what the reply happens to look like.
#[derive(Clone, Copy, PartialEq, Eq, Structural, Debug)]
pub enum Schema {
    /// The generated text sits at `choices[0].message.content`.
    ChoicesMessageContent,
    /// The generated text sits at `results[0].generations[0].text`.
    ResultsGenerationsText,
}

/// Why a request cycle produced no assistant message.  Every kind preserves
/// what is needed to diagnose it; none is retried automatically.
#[derive(Debug)]
pub enum ChatError {
    /// The request never completed: DNS, TLS, connection failure or timeout.
    Transport { detail: String },
    /// The endpoint answered with a non-2xx status; the raw body is kept as
    /// diagnostic text.
    Protocol { status: u16, body: String },
    /// The body of a 2xx answer did not match the configured schema; the
    /// raw body is kept for diagnosis.
    Decode { body: String },
}

/// What one dispatched worker publishes, exactly once: the extracted
/// assistant text, or a failure.
#[derive(Debug)]
pub enum WorkerOutcome {
    Reply(String),
    Failure(ChatError),
}

/// Whether an HTTP status counts as success.
pub open spec fn is_success_status(status: u16) -> bool {
    200 <= status < 300
}

/// The text found at `choices[0].message.content` of the body, once parsed
/// as JSON, if the body parses and the field is a string there.
pub uninterp spec fn choices_message_content(body: Seq<char>) -> Option<Seq<char>>;

/// The text found at `results[0].generations[0].text` of the body, once
/// parsed as JSON, if the body parses and the field is a string there.
pub uninterp spec fn results_generation_text(body: Seq<char>) -> Option<Seq<char>>;

/// The text the configured schema extracts from a response body.
pub open spec fn extracted(schema: Schema, body: Seq<char>) -> Option<Seq<char>> {
    match schema {
        Schema::ChoicesMessageContent => choices_message_content(body),
        Schema::ResultsGenerationsText => results_generation_text(body),
    }
}

/// Relies on `serde_json::from_str::<serde_json::Value>` and
/// `serde_json::Value::{get, as_str}`: parses the body as JSON and reads
/// the string at `choices[0].message.content`, if it is one.  The result
/// depends on the body text alone.
#[verifier::external_body]
fn extract_choices_content(body: &str) -> (r: Option<String>)
    ensures
        (r is Some) == (choices_message_content(body@) is Some),
        r matches Some(t) ==> choices_message_content(body@) matches Some(s) && t@ == s,
{
    let v: serde_json::Value = serde_json::from_str(body).ok()?;
    let text = v.get("choices")?.get(0)?.get("message")?.get("content")?.as_str()?;
    Some(text.to_owned())
}

/// Relies on `serde_json::from_str::<serde_json::Value>` and
/// `serde_json::Value::{get, as_str}`: parses the body as JSON and reads
/// the string at `results[0].generations[0].text`, if it is one.  The
/// result depends on the body text alone.
#[verifier::external_body]
fn extract_results_text(body: &str) -> (r: Option<String>)
    ensures
        (r is Some) == (results_generation_text(body@) is Some),
        r matches Some(t) ==> results_generation_text(body@) matches Some(s) && t@ == s,
{
    let v: serde_json::Value = serde_json::from_str(body).ok()?;
    let text = v.get("results")?.get(0)?.get("generations")?.get(0)?.get("text")?.as_str()?;
    Some(text.to_owned())
}

/// Extracts the generated text from a success body, at the path the
/// configured schema declares.
pub fn extract_reply(schema: Schema, body: &str) -> (r: Option<String>)
    ensures
        (r is Some) == (extracted(schema, body@) is Some),
        r matches Some(t) ==> extracted(schema, body@) matches Some(s) && t@ == s,
{
    match schema {
        Schema::ChoicesMessageContent => extract_choices_content(body),
        Schema::ResultsGenerationsText => extract_results_text(body),
    }
}

/// What [`decode_response`] owes for one status and body: a non-2xx status
/// becomes a protocol failure carrying status and raw body; a 2xx body the
/// schema matches becomes the extracted reply; a 2xx body it does not match
/// becomes a decode failure carrying the raw body.  No other outcome, and
/// never a crash, whatever the body holds.
pub open spec fn response_outcome_matches(
    schema: Schema,
    status: u16,
    body: Seq<char>,
    r: WorkerOutcome,
) -> bool {
    if !is_success_status(status) {
        r matches WorkerOutcome::Failure(ChatError::Protocol { status: s, body: b }) && s == status
            && b@ == body
    } else {
        match extracted(schema, body) {
            Some(text) => r matches WorkerOutcome::Reply(t) && t@ == text,
            None => r matches WorkerOutcome::Failure(ChatError::Decode { body: b }) && b@ == body,
        }
    }
}

/// Decodes one HTTP response into the worker's single published outcome.
pub fn decode_response(schema: Schema, status: u16, body: String) -> (r: WorkerOutcome)
    ensures
        response_outcome_matches(schema, status, body@, r),
{
    if status < 200 || status >= 300 {
        WorkerOutcome::Failure(ChatError::Protocol { status, body })
    } else {
        match extract_reply(schema, body.as_str()) {
            Some(text) => WorkerOutcome::Reply(text),
            None => WorkerOutcome::Failure(ChatError::Decode { body }),
        }
    }
}

/// The outcome a worker publishes for whatever came back from the wire:
/// a transport error becomes a transport failure with its description, and
/// a delivered status plus body is decoded by [`decode_response`].
pub fn worker_outcome(schema: Schema, transfer: Result<(u16, String), String>) -> (r:
    WorkerOutcome)
    ensures
        transfer matches Err(d) ==> (r matches WorkerOutcome::Failure(ChatError::Transport {
            detail,
        }) && detail@ == d@),
        transfer matches Ok(p) ==> response_outcome_matches(schema, p.0, p.1@, r),
{
    match transfer {
        Err(detail) => WorkerOutcome::Failure(ChatError::Transport { detail }),
        Ok((status, body)) => decode_response(schema, status, body),
    }
}

impl ChatError {
    /// A line describing the failure for the user-visible surface.
    pub fn describe(&self) -> (d: String)
        ensures
            self matches ChatError::Transport { detail } ==> d@ == "transport error: "@
                + detail@,
            self matches ChatError::Protocol { status, body } ==> d@
                == "request failed with status "@ + dec_digits(status as nat) + ": "@ + body@,
            self matches ChatError::Decode { body } ==> d@ == "failed to decode response: "@
                + body@,
    {
        match self {
            ChatError::Transport { detail } => {
                let mut d = String::from_str("transport error: ");
                d.append(detail.as_str());
                d
            },
            ChatError::Protocol { status, body } => {
                let mut d = String::from_str("request failed with status ");
                crate::encode::append_u64(&mut d, *status as u64);
                d.append(": ");
                d.append(body.as_str());
                d
            },
            ChatError::Decode { body } => {
                let mut d = String::from_str("failed to decode response: ");
                d.append(body.as_str());
                d
            },
        }
    }
}

} // verus!
