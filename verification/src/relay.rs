use vstd::prelude::*;

use crate::extract::extract_text;
use crate::extract::spec_extract;
use crate::json::is_text_object;
use crate::json::text_object;
use crate::json::Json;

verus! {

/// The diagnostic body sent to the caller when the upstream call fails.
pub open spec fn spec_failure_message() -> Seq<char> {
    "Error reaching Gemini API"@
}

/// What one upstream call came to, as the surrounding process saw it:
/// either a JSON response document — of whatever shape — or a transport
/// failure that left no document to read.
#[derive(Debug, PartialEq, Eq)]
pub enum UpstreamOutcome {
    Response(Json),
    TransportFailure,
}

/// The relay's reply to one request: the extracted answer, sent with
/// status 200 as a JSON document, or a server error, sent with status 500
/// as a plain diagnostic.
#[derive(Debug, PartialEq, Eq)]
pub enum Reply {
    Answer(String),
    ServerError(String),
}

impl Reply {
    /// The HTTP status code the reply is sent with.
    pub fn status(&self) -> (s: u16)
        ensures
            self matches Reply::Answer(_) ==> s == 200,
            self matches Reply::ServerError(_) ==> s == 500,
    {
        match self {
            Reply::Answer(_) => 200,
            Reply::ServerError(_) => 500,
        }
    }

    /// The outgoing JSON document of the reply: `{"text": answer}` for an
    /// answer, nothing for a server error, whose diagnostic goes out as
    /// plain text.
    pub fn document(self) -> (r: Option<Json>)
        ensures
            self matches Reply::Answer(t) ==> r matches Some(d) && is_text_object(d, t@),
            self matches Reply::ServerError(_) ==> r is None,
    {
        match self {
            Reply::Answer(t) => Some(text_object(t)),
            Reply::ServerError(_) => None,
        }
    }
}

/// Decides the relay's reply from the outcome of the upstream call: the
/// string extracted from any response document, however malformed, and a
/// generic server error only on transport failure.
pub fn reply_for(outcome: UpstreamOutcome) -> (r: Reply)
    ensures
        outcome matches UpstreamOutcome::Response(j) ==> r matches Reply::Answer(t) && t@
            == spec_extract(j),
        outcome matches UpstreamOutcome::TransportFailure ==> r matches Reply::ServerError(m) && m@
            == spec_failure_message(),
{
    match outcome {
        UpstreamOutcome::Response(j) => Reply::Answer(extract_text(&j)),
        UpstreamOutcome::TransportFailure => Reply::ServerError(
            "Error reaching Gemini API".to_owned(),
        ),
    }
}

} // verus!
