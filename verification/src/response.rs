//! What the transport hands back: the body of a response in the success
//! class, or an HTTP failure whose body the classifier reads.

use crate::envelope::{classify_failure, failure_of_body};
use crate::error::SpeakError;
use vstd::prelude::*;

verus! {

/// A response outside the success class, with its body as it came.
#[derive(Debug, PartialEq, Eq)]
pub struct HttpFailure {
    pub status: u16,
    pub body: Vec<u8>,
}

/// Whether an HTTP status lies in the success class, 200 to 299.
pub open spec fn success_class(status: u16) -> bool {
    200 <= status <= 299
}

/// Tells whether an HTTP status lies in the success class.
pub fn is_success(status: u16) -> (success: bool)
    ensures
        success == success_class(status),
{
    200 <= status && status <= 299
}

/// Sorts a response by its status: the whole body where the status is in the
/// success class, else the HTTP failure with the status and the body.
pub fn check_status(status: u16, body: Vec<u8>) -> (result: Result<Vec<u8>, HttpFailure>)
    ensures
        match result {
            Ok(bytes) => success_class(status) && bytes@ == body@,
            Err(failure) => !success_class(status) && failure.status == status && failure.body@
                == body@,
        },
{
    if is_success(status) {
        Ok(body)
    } else {
        Err(HttpFailure { status, body })
    }
}

/// Resolves an HTTP failure into the failure that the caller sees: a remote
/// API error where the body is an envelope, else a malformed error payload.
pub fn resolve_failure(failure: &HttpFailure) -> (error: SpeakError)
    ensures
        error@ == failure_of_body(failure.body@),
{
    classify_failure(failure.body.as_slice())
}

} // verus!
