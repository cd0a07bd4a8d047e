use vstd::prelude::*;

verus! {

/// The ways an operation of the client can fail.
#[derive(Debug, Clone, Copy, PartialEq, Eq, Structural)]
pub enum ApiError {
    /// The exchange with the service did not complete (name resolution,
    /// connection, timeout or any other transport fault).
    RequestFailure,
    /// The exchange completed, but the body of the response is not UTF-8.
    InvalidResponse,
}

} // verus!
