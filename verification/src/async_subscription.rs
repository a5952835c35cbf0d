//! Subscriptions: how one comes to be, what it asks of its client, and what
//! it leaves behind when it goes.

use vstd::prelude::*;

use crate::async_client::AsyncClient;
use crate::channel::futures_send;
use crate::error::Error;
use crate::service::{
    caller_result, response_outcome, response_result, service_outcome, service_request, Exchange,
    Guard,
};
use crate::ua::data_types::node_id::NodeId;
use crate::ua::requests::{
    CreateMonitoredItemsRequest, CreateSubscriptionRequest, DeleteSubscriptionsRequest,
    MonitoredItemCreateRequest,
};
use crate::ua::responses::CreateSubscriptionResponse;
use crate::ua::values::{AttributeId, SubscriptionId, ATTRIBUTE_VALUE};

verus! {

/// Subscription on the server. It does not own its client: each operation is
/// told whether the client is still there.
#[derive(Debug, PartialEq, Eq)]
pub struct AsyncSubscription {
    subscription_id: SubscriptionId,
}

impl AsyncSubscription {
    /// Number that the server gave the subscription.
    pub closed spec fn id(&self) -> SubscriptionId {
        self.subscription_id
    }

    /// The subscription that the given response reports, or the error that
    /// the request ended with.
    pub fn new(
        response: Result<CreateSubscriptionResponse, Error>,
    ) -> (subscription: Result<Self, Error>)
        ensures
            match response {
                Ok(response) => subscription is Ok && subscription->Ok_0.id()
                    == response.subscription_id,
                Err(error) => subscription is Err && subscription->Err_0 == error,
            },
    {
        match response {
            Ok(response) => Ok(AsyncSubscription { subscription_id: response.subscription_id }),
            Err(error) => Err(error),
        }
    }

    /// Number that the server gave the subscription.
    pub fn subscription_id(&self) -> (id: SubscriptionId)
        ensures
            id == self.id(),
    {
        self.subscription_id
    }

    /// Creates monitored item: the request that monitors the value of
    /// `node_id` under this subscription. Where the client is gone, this
    /// fails and there is nothing to send.
    pub fn create_monitored_item<'a>(
        &self,
        client: Option<&AsyncClient>,
        node_id: &'a NodeId,
    ) -> (request: Result<CreateMonitoredItemsRequest<'a>, Error>)
        ensures
            client is None ==> request is Err && request->Err_0 == Error::DetachedParent,
            client is Some ==> request is Ok && request->Ok_0.subscription_id == self.id()
                && request->Ok_0.items_to_create@ == seq![
                (MonitoredItemCreateRequest {
                    node_id,
                    attribute_id: AttributeId { raw: ATTRIBUTE_VALUE },
                }),
            ],
    {
        let Some(_client) = client else {
            return Err(Error::DetachedParent);
        };
        let mut items_to_create: Vec<MonitoredItemCreateRequest<'a>> = Vec::new();
        items_to_create.push(
            MonitoredItemCreateRequest { node_id, attribute_id: AttributeId::value() },
        );
        Ok(CreateMonitoredItemsRequest { subscription_id: self.subscription_id, items_to_create })
    }

    /// Ends the subscription: where the client is still there, the one
    /// request that deletes this subscription on the server, to be sent
    /// without waiting for its completion; nothing where the client is gone.
    pub fn teardown(
        &self,
        client: Option<&AsyncClient>,
    ) -> (request: Option<DeleteSubscriptionsRequest>)
        ensures
            client is None ==> request is None,
            client is Some ==> request is Some && request->0.subscription_ids@ == seq![self.id()],
    {
        let Some(_client) = client else {
            return None;
        };
        let mut subscription_ids: Vec<SubscriptionId> = Vec::new();
        subscription_ids.push(self.subscription_id);
        Some(DeleteSubscriptionsRequest { subscription_ids })
    }
}

/// The request that creates a subscription.
pub fn create_subscription_request() -> CreateSubscriptionRequest {
    CreateSubscriptionRequest {}
}

/// Completes the request to create a subscription from inside the engine's
/// callback: sorts the response by its service result and sends the outcome
/// to the caller. A caller who has stopped waiting is no error: the outcome
/// that found no receiver is handed back, for the callback to drop.
pub fn complete_subscription(
    sender: futures_channel::oneshot::Sender<Result<CreateSubscriptionResponse, Error>>,
    response: CreateSubscriptionResponse,
) -> (undelivered: Option<Result<CreateSubscriptionResponse, Error>>)
    ensures
        undelivered is Some ==> undelivered == Some(response_outcome(response)),
{
    let outcome = caller_result(response_result(response));
    futures_send(sender, outcome)
}

/// What the caller gets from the receiving half of the channel: the outcome
/// that the callback sent, or an internal error where the sending half went
/// away without sending.
pub fn received_subscription(
    reception: Result<
        Result<CreateSubscriptionResponse, Error>,
        futures_channel::oneshot::Canceled,
    >,
) -> (outcome: Result<CreateSubscriptionResponse, Error>)
    ensures
        outcome == match reception {
            Ok(sent) => sent,
            Err(_) => Err::<CreateSubscriptionResponse, Error>(Error::InternalInvariantViolation),
        },
{
    match reception {
        Ok(sent) => sent,
        Err(_) => Err(Error::internal()),
    }
}

/// What the caller gets for the request to create a subscription, given
/// everything that happened outside.
pub fn create_subscription(
    exchange: Exchange<CreateSubscriptionResponse>,
) -> (outcome: Result<CreateSubscriptionResponse, Error>)
    ensures
        outcome == service_outcome(exchange),
{
    service_request(exchange)
}

/// Decides whether the request to delete subscriptions goes out: it does
/// where the guard could be taken, and is dropped where the guard is
/// poisoned. Either way nobody waits for an answer.
pub fn delete_subscription(
    request: DeleteSubscriptionsRequest,
    guard: Guard,
) -> (sent: Option<DeleteSubscriptionsRequest>)
    ensures
        sent == match guard {
            Guard::Acquired => Some(request),
            Guard::Poisoned => None,
        },
{
    match guard {
        Guard::Acquired => Some(request),
        Guard::Poisoned => None,
    }
}

} // verus!
