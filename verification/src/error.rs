use vstd::prelude::*;

use crate::ua::status_code::StatusCode;

verus! {

/// What an operation of the client can fail with.
#[derive(Clone, Copy, Debug, PartialEq, Eq, Structural)]
pub enum Error {
    /// The guard around the client handle is poisoned.
    LockFailure,
    /// The protocol engine reported a status that is not good.
    ServiceFailure(StatusCode),
    /// A response did not have the shape that the protocol guarantees.
    InternalInvariantViolation,
    /// The owner of the resource is gone.
    DetachedParent,
}

impl Error {
    /// Error for a status that is not good.
    pub fn new(status_code: StatusCode) -> (error: Self)
        ensures
            error == Error::ServiceFailure(status_code),
    {
        Error::ServiceFailure(status_code)
    }

    /// Error for a violated response shape.
    pub fn internal() -> (error: Self)
        ensures
            error == Error::InternalInvariantViolation,
    {
        Error::InternalInvariantViolation
    }

    /// Passes a good status and turns any other into a service failure.
    pub fn verify_good(status_code: &StatusCode) -> (verdict: Result<(), Error>)
        ensures
            status_code.good() ==> verdict == Ok::<(), Error>(()),
            !status_code.good() ==> verdict == Err::<(), Error>(
                Error::ServiceFailure(*status_code),
            ),
    {
        if status_code.is_good() {
            Ok(())
        } else {
            Err(Error::ServiceFailure(*status_code))
        }
    }

    /// Status code that the protocol engine reported, if this is a service failure.
    pub fn status_code(&self) -> (code: Option<StatusCode>)
        ensures
            code == match *self {
                Error::ServiceFailure(status) => Some(status),
                _ => None,
            },
    {
        match self {
            Error::ServiceFailure(status) => Some(*status),
            _ => None,
        }
    }
}

} // verus!
