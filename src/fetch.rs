use vstd::prelude::*;
use vstd::string::StringExecFns;
use crate::story::StoryArc;

verus! {

/// Where the backend serves arcs; an arc's identifier is appended as it is.
pub const ARC_ENDPOINT: &'static str = "http://localhost:8085/arc/";

/// The address of the arc with identifier `arc`.
pub open spec fn arc_url_spec(arc: Seq<char>) -> Seq<char> {
    ARC_ENDPOINT@ + arc
}

/// Builds the address to fetch the arc `arc` from, without escaping it.
pub fn arc_url(arc: &str) -> (r: String)
    ensures
        r@ == arc_url_spec(arc@),
{
    let mut url = String::from_str(ARC_ENDPOINT);
    url.append(arc);
    url
}

/// Whether an HTTP status code reports success (the 2xx class).
pub open spec fn is_success_spec(code: u16) -> bool {
    200 <= code && code <= 299
}

/// Tells a successful HTTP status code from any other.
pub fn is_success(code: u16) -> (r: bool)
    ensures
        r == is_success_spec(code),
{
    200 <= code && code <= 299
}

/// Why a fetch brought no arc.
#[derive(Clone, Copy, Debug, PartialEq, Eq)]
pub enum FetchError {
    /// The request never completed.
    Transport,
    /// The server answered with this non-success status.
    Status(u16),
    /// The body does not decode as a story arc.
    Decode,
}

/// What came back from the backend for one request.
#[derive(Clone, Debug, PartialEq, Eq)]
pub enum Reply {
    /// No response arrived.
    Unreachable,
    /// A response arrived, with its status and its body decoded as an arc
    /// (`None` where the body is not one).
    Answered { status: u16, body: Option<StoryArc> },
}

/// The outcome of a fetch given what came back.
pub open spec fn outcome_spec(reply: Reply) -> Result<StoryArc, FetchError> {
    match reply {
        Reply::Unreachable => Err(FetchError::Transport),
        Reply::Answered { status, body } => {
            if !is_success_spec(status) {
                Err(FetchError::Status(status))
            } else {
                match body {
                    Some(arc) => Ok(arc),
                    None => Err(FetchError::Decode),
                }
            }
        },
    }
}

/// Decides the outcome of a fetch: a transport failure, then a non-success
/// status, then an undecodable body each fail with their own kind; otherwise
/// the decoded arc is the result.
pub fn outcome(reply: Reply) -> (r: Result<StoryArc, FetchError>)
    ensures
        r == outcome_spec(reply),
{
    match reply {
        Reply::Unreachable => Err(FetchError::Transport),
        Reply::Answered { status, body } => {
            if !is_success(status) {
                Err(FetchError::Status(status))
            } else {
                match body {
                    Some(arc) => Ok(arc),
                    None => Err(FetchError::Decode),
                }
            }
        },
    }
}

} // verus!
