//! The decisions of one request's round trip: whether the protocol engine
//! took the request, what its response means, and what the caller gets.

use vstd::prelude::*;

use crate::channel::tokio_send;
use crate::error::Error;
use crate::ua::responses::{
    BrowseNextResponse, BrowseResponse, CallResponse, CreateMonitoredItemsResponse,
    CreateSubscriptionResponse, ReadResponse, WriteResponse,
};
use crate::ua::status_code::StatusCode;

verus! {

/// A response of the protocol engine, which carries the status of the
/// service call as a whole.
pub trait ServiceResponse: Sized {
    /// Status of the service call as a whole.
    spec fn status(&self) -> StatusCode;

    /// Status of the service call as a whole.
    fn service_result(&self) -> (status: StatusCode)
        ensures
            status == self.status(),
    ;
}

impl ServiceResponse for ReadResponse {
    open spec fn status(&self) -> StatusCode {
        self.service_result
    }

    fn service_result(&self) -> StatusCode {
        self.service_result
    }
}

impl ServiceResponse for WriteResponse {
    open spec fn status(&self) -> StatusCode {
        self.service_result
    }

    fn service_result(&self) -> StatusCode {
        self.service_result
    }
}

impl ServiceResponse for CallResponse {
    open spec fn status(&self) -> StatusCode {
        self.service_result
    }

    fn service_result(&self) -> StatusCode {
        self.service_result
    }
}

impl ServiceResponse for BrowseResponse {
    open spec fn status(&self) -> StatusCode {
        self.service_result
    }

    fn service_result(&self) -> StatusCode {
        self.service_result
    }
}

impl ServiceResponse for BrowseNextResponse {
    open spec fn status(&self) -> StatusCode {
        self.service_result
    }

    fn service_result(&self) -> StatusCode {
        self.service_result
    }
}

impl ServiceResponse for CreateSubscriptionResponse {
    open spec fn status(&self) -> StatusCode {
        self.service_result
    }

    fn service_result(&self) -> StatusCode {
        self.service_result
    }
}

impl ServiceResponse for CreateMonitoredItemsResponse {
    open spec fn status(&self) -> StatusCode {
        self.service_result
    }

    fn service_result(&self) -> StatusCode {
        self.service_result
    }
}

/// Whether the guard around the client handle could be taken.
#[derive(Clone, Copy, Debug, PartialEq, Eq, Structural)]
pub enum Guard {
    Acquired,
    Poisoned,
}

/// What became of the attempt to hand a request to the protocol engine.
#[derive(Clone, Copy, Debug, PartialEq, Eq, Structural)]
pub enum Submission {
    /// The guard around the client handle was poisoned: nothing was sent.
    Poisoned,
    /// The engine was called and returned this status.
    Sent(StatusCode),
}

/// What the engine made of a request that it took.
pub enum Reply<R> {
    /// The completion callback fired with this response.
    Response(R),
    /// The completion record went away without the callback having fired.
    Abandoned,
}

/// Everything that happened outside during one request.
pub enum Exchange<R> {
    /// The guard around the client handle was poisoned: nothing was sent.
    Poisoned,
    /// The engine was called and returned `status`; where that was good, the
    /// caller waited and got `reply`.
    Sent { status: StatusCode, reply: Reply<R> },
}

/// What a response means to the caller: the response itself where the
/// service result is good, a service failure with that result otherwise.
pub open spec fn response_outcome<R: ServiceResponse>(response: R) -> Result<R, Error> {
    if response.status().good() {
        Ok(response)
    } else {
        Err(Error::ServiceFailure(response.status()))
    }
}

/// What a caller gets after the given submission, before any reply: an error
/// where the request did not go out, nothing yet where it did.
pub open spec fn submission_outcome(submission: Submission) -> Result<(), Error> {
    match submission {
        Submission::Poisoned => Err(Error::LockFailure),
        Submission::Sent(status) => if status.good() {
            Ok(())
        } else {
            Err(Error::ServiceFailure(status))
        },
    }
}

/// What a caller gets for the given reply to a request that went out.
pub open spec fn reply_outcome<R: ServiceResponse>(reply: Reply<R>) -> Result<R, Error> {
    match reply {
        Reply::Response(response) => response_outcome(response),
        Reply::Abandoned => Err(Error::InternalInvariantViolation),
    }
}

/// What a caller gets for a request, given everything that happened outside.
pub open spec fn service_outcome<R: ServiceResponse>(exchange: Exchange<R>) -> Result<R, Error> {
    match exchange {
        Exchange::Poisoned => Err(Error::LockFailure),
        Exchange::Sent { status, reply } => if status.good() {
            reply_outcome(reply)
        } else {
            Err(Error::ServiceFailure(status))
        },
    }
}

/// Sorts a response by its service result, as the completion callback does
/// before it hands the result on.
pub fn response_result<R: ServiceResponse>(response: R) -> (result: Result<R, StatusCode>)
    ensures
        response.status().good() ==> result == Ok::<R, StatusCode>(response),
        !response.status().good() ==> result == Err::<R, StatusCode>(response.status()),
{
    let status_code = response.service_result();
    if status_code.is_good() {
        Ok(response)
    } else {
        Err(status_code)
    }
}

/// Turns the completion callback's result into what the caller awaits.
pub fn caller_result<R>(result: Result<R, StatusCode>) -> (outcome: Result<R, Error>)
    ensures
        outcome == match result {
            Ok(response) => Ok::<R, Error>(response),
            Err(status) => Err::<R, Error>(Error::ServiceFailure(status)),
        },
{
    match result {
        Ok(response) => Ok(response),
        Err(status_code) => Err(Error::new(status_code)),
    }
}

/// Completes a request from inside the engine's callback: sorts the response
/// by its service result and sends the outcome to the caller. A caller who
/// has stopped waiting is no error: the outcome that found no receiver is
/// handed back, for the callback to drop.
pub fn complete<R: ServiceResponse>(
    sender: tokio::sync::oneshot::Sender<Result<R, Error>>,
    response: R,
) -> (undelivered: Option<Result<R, Error>>)
    ensures
        undelivered is Some ==> undelivered == Some(response_outcome(response)),
{
    let outcome = caller_result(response_result(response));
    tokio_send(sender, outcome)
}

/// Decides, once the engine has been asked to send, whether to wait for a
/// reply (`Ok`) or to fail at once.
pub fn submitted(submission: Submission) -> (verdict: Result<(), Error>)
    ensures
        verdict == submission_outcome(submission),
{
    match submission {
        Submission::Poisoned => Err(Error::LockFailure),
        Submission::Sent(status_code) => Error::verify_good(&status_code),
    }
}

/// What the caller gets from the receiving half of the channel: the outcome
/// that the callback sent, or an internal error where the sending half went
/// away without sending.
pub fn received<R>(
    reception: Result<Result<R, Error>, tokio::sync::oneshot::error::RecvError>,
) -> (outcome: Result<R, Error>)
    ensures
        outcome == match reception {
            Ok(sent) => sent,
            Err(_) => Err::<R, Error>(Error::InternalInvariantViolation),
        },
{
    match reception {
        Ok(sent) => sent,
        Err(_) => Err(Error::internal()),
    }
}

/// What a caller gets for a request, given everything that happened outside:
/// a lock failure where the guard was poisoned, a service failure where the
/// engine refused the request or answered with a service result that is not
/// good, an internal error where no response ever came, else the response.
pub fn service_request<R: ServiceResponse>(exchange: Exchange<R>) -> (outcome: Result<R, Error>)
    ensures
        outcome == service_outcome(exchange),
{
    match exchange {
        Exchange::Poisoned => Err(Error::LockFailure),
        Exchange::Sent { status, reply } => {
            match submitted(Submission::Sent(status)) {
                Err(error) => Err(error),
                Ok(()) => match reply {
                    Reply::Response(response) => caller_result(response_result(response)),
                    Reply::Abandoned => Err(Error::internal()),
                },
            }
        },
    }
}

/// A request that the engine took and answered ends in a service failure if
/// and only if the service result of the response is not good; the failure
/// then carries that service result, and the response is handed on otherwise.
pub proof fn law_service_failure_iff_response_not_good<R: ServiceResponse>(
    status: StatusCode,
    response: R,
)
    requires
        status.good(),
    ensures
        service_outcome(Exchange::Sent { status, reply: Reply::Response(response) })
            is Err <==> !response.status().good(),
        !response.status().good() ==> service_outcome(
            Exchange::Sent { status, reply: Reply::Response(response) },
        ) == Err::<R, Error>(Error::ServiceFailure(response.status())),
        response.status().good() ==> service_outcome(
            Exchange::Sent { status, reply: Reply::Response(response) },
        ) == Ok::<R, Error>(response),
{
}

/// A service failure always carries a status that is not good, a request
/// never ends with a detached parent, and a response that is handed on has a
/// good service result, whatever happened outside.
pub proof fn law_service_failure_is_never_good<R: ServiceResponse>(exchange: Exchange<R>)
    ensures
        match service_outcome(exchange) {
            Err(Error::ServiceFailure(status)) => !status.good(),
            Err(Error::DetachedParent) => false,
            _ => true,
        },
        service_outcome(exchange) is Ok ==> service_outcome(exchange)->Ok_0.status().good(),
{
}

/// Taking the decisions one at a time gives what the exchange as a whole
/// gives: a request fails at once where its submission fails, and otherwise
/// ends with what the callback sent, or with an internal error where the
/// callback never sent.
pub proof fn law_steps_agree_with_exchange<R: ServiceResponse>(status: StatusCode, reply: Reply<R>)
    ensures
        service_outcome(Exchange::<R>::Poisoned) == Err::<R, Error>(
            submission_outcome(Submission::Poisoned)->Err_0,
        ),
        submission_outcome(Submission::Sent(status)) is Err ==> service_outcome(
            Exchange::Sent { status, reply },
        ) == Err::<R, Error>(submission_outcome(Submission::Sent(status))->Err_0),
        submission_outcome(Submission::Sent(status)) is Ok ==> service_outcome(
            Exchange::Sent { status, reply },
        ) == match reply {
            Reply::Response(response) => response_outcome(response),
            Reply::Abandoned => Err(Error::InternalInvariantViolation),
        },
{
}

} // verus!
