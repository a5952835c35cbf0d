//! The sending halves of the one-shot channels that carry a completed
//! request's result back to the caller who awaits it.

use vstd::prelude::*;

verus! {

/// `tokio::sync::oneshot::Sender`, carried through as an opaque value.
#[verifier::external_type_specification]
#[verifier::external_body]
#[verifier::reject_recursive_types(T)]
pub struct ExTokioSender<T>(tokio::sync::oneshot::Sender<T>);

/// `tokio::sync::oneshot::error::RecvError`, carried through as an opaque
/// value.
#[verifier::external_type_specification]
#[verifier::external_body]
pub struct ExTokioRecvError(tokio::sync::oneshot::error::RecvError);

/// `futures_channel::oneshot::Sender`, carried through as an opaque value.
#[verifier::external_type_specification]
#[verifier::external_body]
#[verifier::reject_recursive_types(T)]
pub struct ExFuturesSender<T>(futures_channel::oneshot::Sender<T>);

/// `futures_channel::oneshot::Canceled`, carried through as an opaque value.
#[verifier::external_type_specification]
#[verifier::external_body]
pub struct ExFuturesCanceled(futures_channel::oneshot::Canceled);

/// Calls `tokio::sync::oneshot::Sender::send`. Whether the value arrives
/// depends on the receiving half, so nothing is claimed of that; a value
/// that does not arrive comes back unchanged, as `Some`.
#[verifier::external_body]
pub(crate) fn tokio_send<T>(
    sender: tokio::sync::oneshot::Sender<T>,
    value: T,
) -> (unsent: Option<T>)
    ensures
        unsent is Some ==> unsent == Some(value),
{
    sender.send(value).err()
}

/// Calls `futures_channel::oneshot::Sender::send`. Whether the value arrives
/// depends on the receiving half, so nothing is claimed of that; a value
/// that does not arrive comes back unchanged, as `Some`.
#[verifier::external_body]
pub(crate) fn futures_send<T>(
    sender: futures_channel::oneshot::Sender<T>,
    value: T,
) -> (unsent: Option<T>)
    ensures
        unsent is Some ==> unsent == Some(value),
{
    sender.send(value).err()
}

} // verus!
