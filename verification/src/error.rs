//! The one error taxonomy every backend reports in.

use vstd::prelude::*;

verus! {

/// Why a query produced no quota record.
#[derive(Clone, Copy, Debug, PartialEq, Eq, Structural)]
pub enum FqError {
    /// The identity has no quota configured on the filesystem. For a caller
    /// this is an answer, not a malfunction.
    NoQuota,
    /// The path lies on no known mount, or the mount has no quota mechanism
    /// this crate recognizes.
    Unsupported,
    /// A local call failed; the payload is the operating system's error code.
    IoFailure(i32),
    /// The remote quota service could not be reached or answered garbage.
    RpcFailure,
    /// A path could not be marshalled for the underlying call.
    EncodingFailure,
}

/// A result as contracts speak of it: a value by its view, an error as it
/// is.
pub open spec fn outcome_view<T: View>(result: Result<T, FqError>) -> Result<T::V, FqError> {
    match result {
        Ok(value) => Ok(value@),
        Err(e) => Err(e),
    }
}

impl FqError {
    /// The error a failed local call is reported as: `IoFailure` carrying
    /// the operating system's code unchanged.
    pub fn from_os_error(code: i32) -> (e: FqError)
        ensures
            e == FqError::IoFailure(code),
    {
        FqError::IoFailure(code)
    }
}

} // verus!
