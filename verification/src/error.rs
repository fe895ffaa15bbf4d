//! The ways in which an operation of the store can fail.

use vstd::prelude::*;

verus! {

/// `serde_json::Error`, made known so that it can stand in variants and
/// signatures. Nothing of its inside is known.
#[verifier::external_type_specification]
#[verifier::external_body]
pub struct ExJsonError(serde_json::Error);

/// What a backend reports when an operation on it fails.
#[derive(Debug)]
pub struct BackendError {
    /// The backend's own words, for a log or a caller.
    pub message: String,
}

/// What a backend answers: a value, or its report of a failure.
pub type Answer<V> = Result<V, BackendError>;

/// Why an operation of the store failed.
#[derive(Debug)]
pub enum SessionError {
    /// The backend could not be reached or refused the operation.
    Backend(BackendError),
    /// A session could not be written out as text.
    Encode(serde_json::Error),
    /// The text that the backend holds for a session is not a session.
    Decode(serde_json::Error),
}

/// `outcome` passes on what a backend answered: the value that it gave, or
/// its failure, marked as the backend's.
pub open spec fn passes_on<V>(answer: Answer<V>, outcome: Result<V, SessionError>) -> bool {
    match answer {
        Ok(value) => outcome matches Ok(passed) && passed == value,
        Err(failure) => outcome matches Err(SessionError::Backend(passed)) && passed == failure,
    }
}

/// Passes on what a backend answered, with a failure marked as the backend's.
pub fn backend_outcome<V>(answer: Answer<V>) -> (outcome: Result<V, SessionError>)
    ensures
        passes_on(answer, outcome),
{
    match answer {
        Ok(value) => Ok(value),
        Err(failure) => Err(SessionError::Backend(failure)),
    }
}

} // verus!
