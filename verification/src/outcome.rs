//! From what the host observed on the wire to the command's result.

use vstd::prelude::*;

verus! {

/// What became of a prepared request once the host tried to send it.
#[derive(Debug, PartialEq, Eq)]
pub enum Outcome {
    /// No HTTP client could be set up; the text says why.
    ClientFailed(String),
    /// Sending the request or reading the response failed; the text says why.
    TransportFailed(String),
    /// A response arrived and its body was read.
    Received { status: u16, body: String },
}

/// The result of a command as text: the response body, or the error.
pub open spec fn result_text(r: Result<String, String>) -> Result<Seq<char>, Seq<char>> {
    match r {
        Ok(body) => Ok(body@),
        Err(reason) => Err(reason@),
    }
}

/// The result that an outcome stands for. A response is a success whatever
/// its status: the body is handed on as it is. A failure is reported by its
/// own text, behind a fixed prefix where it was the client that failed.
pub open spec fn spec_conclude(outcome: Outcome) -> Result<Seq<char>, Seq<char>> {
    match outcome {
        Outcome::ClientFailed(reason) => Err("Failed to create HTTP client: "@ + reason@),
        Outcome::TransportFailed(reason) => Err(reason@),
        Outcome::Received { status, body } => Ok(body@),
    }
}

/// Turns an outcome into the command's result.
pub fn conclude(outcome: Outcome) -> (r: Result<String, String>)
    ensures
        result_text(r) == spec_conclude(outcome),
        outcome matches Outcome::Received { status, body } ==> r == Ok::<String, String>(body),
        outcome matches Outcome::TransportFailed(reason) ==> r == Err::<String, String>(reason),
        outcome is ClientFailed ==> r is Err,
{
    match outcome {
        Outcome::ClientFailed(reason) => Err(
            String::from_str("Failed to create HTTP client: ").concat(reason.as_str()),
        ),
        Outcome::TransportFailed(reason) => Err(reason),
        Outcome::Received { status: _, body } => Ok(body),
    }
}

} // verus!
