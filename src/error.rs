//! Error values of the dispatch layer.

use vstd::prelude::*;

verus! {

/// The single failure value of every call made over an established connection.
#[derive(Clone, Copy, Debug, PartialEq, Eq, Structural)]
pub enum FusionErrorCode {
    Fail,
}

/// Result of a dispatch-layer call.
pub type FusionResult<T> = Result<T, FusionErrorCode>;

/// Why the device-status service could not be reached.
#[derive(Clone, Copy, Debug, PartialEq, Eq, Structural)]
pub enum UnavailableCause {
    /// The registry knows no service under the identifier.
    NotRegistered,
    /// A service was found, but it does not speak the expected interface.
    WrongInterface,
}

/// Failure of a connection attempt.
#[derive(Clone, Copy, Debug, PartialEq, Eq, Structural)]
pub enum ConnectError {
    Unavailable,
}

impl FusionErrorCode {
    /// The integer this error stands for at the native boundary.
    pub fn code(&self) -> (r: i32)
        ensures
            r == -1,
    {
        -1
    }
}

} // verus!
