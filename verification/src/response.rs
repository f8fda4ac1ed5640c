//! Interpreting a response envelope.
//!
//! A response that carries an `error` member reports a failure of the
//! service, whatever else it holds. Any other response must carry a string at
//! `result.content[0].text`; one that does not breaks the service's contract.

use crate::json::{Json, JsonView};
use vstd::prelude::*;

verus! {

/// What a response envelope amounts to.
#[derive(Debug, PartialEq, Eq)]
pub enum Outcome {
    /// The call succeeded; the text is the human-readable result.
    Success(String),
    /// The service reported a failure; the payload is what stood under `error`.
    ServerError(Json),
    /// Neither an error nor a well-shaped result.
    Malformed,
}

/// The mathematical model of an [`Outcome`].
pub enum OutcomeView {
    Success(Seq<char>),
    ServerError(JsonView),
    Malformed,
}

impl View for Outcome {
    type V = OutcomeView;

    open spec fn view(&self) -> OutcomeView {
        match self {
            Outcome::Success(text) => OutcomeView::Success(text@),
            Outcome::ServerError(payload) => OutcomeView::ServerError(payload@),
            Outcome::Malformed => OutcomeView::Malformed,
        }
    }
}

/// The string at `result.content[0].text`, if the body has that shape.
pub open spec fn success_text(body: JsonView) -> Option<Seq<char>> {
    match body.member("result"@) {
        Some(result) => match result.member("content"@) {
            Some(content) => match content.element(0) {
                Some(first) => match first.member("text"@) {
                    Some(text) => text.as_text(),
                    None => None,
                },
                None => None,
            },
            None => None,
        },
        None => None,
    }
}

/// The classification of a response body.
pub open spec fn interpret_spec(body: JsonView) -> OutcomeView {
    match body.member("error"@) {
        Some(payload) => OutcomeView::ServerError(payload),
        None => match success_text(body) {
            Some(text) => OutcomeView::Success(text),
            None => OutcomeView::Malformed,
        },
    }
}

/// The exec counterpart of [`success_text`].
fn find_success_text(body: &Json) -> (text: Option<&str>)
    ensures
        match text {
            Some(text) => success_text(body@) == Some(text@),
            None => success_text(body@) is None,
        },
{
    match body.get("result") {
        Some(result) => match result.get("content") {
            Some(content) => match content.at(0) {
                Some(first) => match first.get("text") {
                    Some(text) => text.as_str(),
                    None => None,
                },
                None => None,
            },
            None => None,
        },
        None => None,
    }
}

/// Classifies a response body.
///
/// A body with an `error` member is a `ServerError` carrying that member's
/// value. Otherwise a string at `result.content[0].text` makes it a `Success`
/// with that text, and its absence makes it `Malformed`.
pub fn interpret(body: &Json) -> (outcome: Outcome)
    ensures
        outcome@ == interpret_spec(body@),
        body@.member("error"@) is Some ==> outcome@ is ServerError,
{
    match body.get("error") {
        Some(payload) => Outcome::ServerError(payload.clone()),
        None => match find_success_text(body) {
            Some(text) => Outcome::Success(text.to_owned()),
            None => Outcome::Malformed,
        },
    }
}

} // verus!
