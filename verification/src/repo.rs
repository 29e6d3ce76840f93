//! Cloning: which requests reach the repository engine, and the status code
//! that tells the host how a request ended.

use crate::error::BridgeError;
use crate::text::{borrow_text, borrowed_text};
use vstd::prelude::*;
use vstd::string::*;

verus! {

/// The status code of an operation that succeeded.
pub const STATUS_SUCCESS: i32 = 0;

/// The status code of an operation that failed, whatever the reason.
pub const STATUS_FAILURE: i32 = -1;

/// What the repository engine is asked to do: clone the repository at
/// `url` into the directory `path`.
#[derive(Debug, PartialEq, Eq)]
pub struct CloneRequest {
    pub url: String,
    pub path: String,
}

/// What stands before the two texts in the diagnostic line for a clone that
/// is about to be tried.
pub const CLONE_ATTEMPT_PREFIX: &'static str = "🚀 Attempting to clone: ";

/// What stands before the two texts in the diagnostic line for a clone that
/// succeeded.
pub const CLONE_SUCCESS_PREFIX: &'static str = "✅ Clone successful: ";

/// What stands between the two texts of a diagnostic line.
pub const CLONE_ARROW: &'static str = " -> ";

/// What the boundary decides about a clone request before the repository
/// engine is asked: the two texts to clone with, or `InvalidInput` where
/// either is missing.
pub open spec fn clone_check(url: Option<&[u8]>, path: Option<&[u8]>) -> Result<
    (Seq<char>, Seq<char>),
    BridgeError,
> {
    match (url, path) {
        (Some(from), Some(to)) => Ok((borrowed_text(from@), borrowed_text(to@))),
        _ => Err(BridgeError::InvalidInput),
    }
}

/// Reads the two texts of a clone request. On success the caller invokes
/// the repository engine with the request returned; where either text is
/// missing the request ends here as `InvalidInput`.
pub fn clone_repo(url: Option<&[u8]>, path: Option<&[u8]>) -> (res: Result<
    CloneRequest,
    BridgeError,
>)
    ensures
        match clone_check(url, path) {
            Ok((from, to)) => res matches Ok(request) && request.url@ == from && request.path@
                == to,
            Err(e) => res == Err::<CloneRequest, BridgeError>(e),
        },
{
    let from = match borrow_text(url) {
        Ok(text) => text,
        Err(e) => {
            return Err(e);
        },
    };
    let to = match borrow_text(path) {
        Ok(text) => text,
        Err(e) => {
            return Err(e);
        },
    };
    Ok(CloneRequest { url: from, path: to })
}

/// The diagnostic line for a clone that is about to be tried.
pub fn clone_attempt_line(request: &CloneRequest) -> (line: String)
    ensures
        line@ == CLONE_ATTEMPT_PREFIX@ + request.url@ + CLONE_ARROW@ + request.path@,
{
    CLONE_ATTEMPT_PREFIX.to_owned().concat(request.url.as_str()).concat(CLONE_ARROW).concat(
        request.path.as_str(),
    )
}

/// The diagnostic line for a clone that succeeded.
pub fn clone_success_line(request: &CloneRequest) -> (line: String)
    ensures
        line@ == CLONE_SUCCESS_PREFIX@ + request.url@ + CLONE_ARROW@ + request.path@,
{
    CLONE_SUCCESS_PREFIX.to_owned().concat(request.url.as_str()).concat(CLONE_ARROW).concat(
        request.path.as_str(),
    )
}

/// The status code for an outcome: success, or one value for every failure.
pub open spec fn status_code(outcome: Result<(), BridgeError>) -> int {
    match outcome {
        Ok(_) => STATUS_SUCCESS as int,
        Err(_) => STATUS_FAILURE as int,
    }
}

/// Renders the outcome of a clone as the status code for the host. The
/// reason of a failure is not passed on.
pub fn clone_status(outcome: &Result<(), BridgeError>) -> (status: i32)
    ensures
        status == status_code(*outcome),
{
    match outcome {
        Ok(_) => STATUS_SUCCESS,
        Err(_) => STATUS_FAILURE,
    }
}

/// A clone request with a missing text ends with the failure status, and
/// with no other: the status of a refused request is that of any failure.
pub proof fn lemma_missing_text_fails(url: Option<&[u8]>, path: Option<&[u8]>)
    requires
        url is None || path is None,
    ensures
        clone_check(url, path) == Err::<(Seq<char>, Seq<char>), BridgeError>(
            BridgeError::InvalidInput,
        ),
        status_code(Err(BridgeError::InvalidInput)) == -1,
{
}

/// The status code tells success from failure and nothing more.
pub proof fn lemma_status_two_valued(outcome: Result<(), BridgeError>)
    ensures
        status_code(outcome) == 0 || status_code(outcome) == -1,
        status_code(outcome) == 0 <==> outcome is Ok,
{
}

} // verus!
