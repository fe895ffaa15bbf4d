//! Handing the store to the code that serves a request.

use vstd::prelude::*;

verus! {

/// The status with which a request is refused when no store is installed:
/// an internal server error.
pub const STORE_MISSING_STATUS: u16 = 500;

/// Why a store could not be had for a request: none was installed.
#[derive(Clone, Copy, Debug)]
pub struct StoreMissing {
    /// The status to answer the request with.
    pub status: u16,
    /// What went wrong, for the one who set the service up.
    pub message: &'static str,
}

/// The store that was looked up for a request, or the refusal that says
/// that none is installed.
pub fn installed<S>(found: Option<S>) -> (store: Result<S, StoreMissing>)
    ensures
        found matches Some(there) ==> (store matches Ok(handed) && handed == there),
        found is None ==> (store matches Err(missing) && missing.status == STORE_MISSING_STATUS
            && missing.message@ == "Can't extract Axum `Session`. Is `SessionLayer` enabled?"@),
{
    match found {
        Some(there) => Ok(there),
        None => Err(
            StoreMissing {
                status: STORE_MISSING_STATUS,
                message: "Can't extract Axum `Session`. Is `SessionLayer` enabled?",
            },
        ),
    }
}

} // verus!
