//! Fetching a JSON document: an answer that does not parse is fetched
//! again, at most three more times.

use crate::json::{json_document, parse_json, Json};
use crate::text::str_eq;
use vstd::prelude::*;

verus! {

/// How many times an unparsable answer is fetched again.
pub const MAX_RETRY: u8 = 3;

/// What to do with one answer.
#[derive(Debug)]
pub enum Attempt {
    /// The document.
    Done(Json),
    /// The catalogue has nothing for the request.
    NoResult,
    /// Still no document after the last retry.
    TooManyRequests,
    /// Fetch again; this is the new retry count.
    Retry(u8),
}

/// Decides on one answer, fetched after `retry` retries, from its text:
/// the catalogue's "no result" answer ends the fetching, a JSON document
/// is taken, and anything else is fetched again until the retries run out.
pub fn json_attempt(retry: u8, response: &str) -> (r: Attempt)
    requires
        retry <= MAX_RETRY,
    ensures
        response@ == "error no result"@ ==> r is NoResult,
        response@ != "error no result"@ && json_document(response@) is Some ==> r
            == Attempt::Done(json_document(response@)->Some_0),
        response@ != "error no result"@ && json_document(response@) is None && retry
            == MAX_RETRY ==> r is TooManyRequests,
        response@ != "error no result"@ && json_document(response@) is None && retry
            < MAX_RETRY ==> r == Attempt::Retry((retry + 1) as u8),
        r matches Attempt::Retry(n) ==> retry < n <= MAX_RETRY,
{
    if str_eq(response, "error no result") {
        return Attempt::NoResult;
    }
    match parse_json(response) {
        Some(json) => Attempt::Done(json),
        None => {
            if retry == MAX_RETRY {
                Attempt::TooManyRequests
            } else {
                Attempt::Retry(retry + 1)
            }
        },
    }
}

} // verus!
