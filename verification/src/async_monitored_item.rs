//! Monitored items: children of a subscription, with the same discipline.

use vstd::prelude::*;

use crate::async_client::AsyncClient;
use crate::error::Error;
use crate::ua::requests::DeleteMonitoredItemsRequest;
use crate::ua::responses::CreateMonitoredItemsResponse;
use crate::ua::values::{MonitoredItemId, SubscriptionId};

verus! {

/// Monitored item on the server. It does not own its client: its teardown is
/// told whether the client is still there.
#[derive(Debug, PartialEq, Eq)]
pub struct AsyncMonitoredItem {
    subscription_id: SubscriptionId,
    monitored_item_id: MonitoredItemId,
}

/// What creating a monitored item returns for the given response: the first
/// result decides.
pub open spec fn monitored_item_outcome(
    response: Result<CreateMonitoredItemsResponse, Error>,
) -> Result<MonitoredItemId, Error> {
    match response {
        Err(error) => Err(error),
        Ok(response) => match response.results {
            None => Err(Error::InternalInvariantViolation),
            Some(results) => if results@.len() == 0 {
                Err(Error::InternalInvariantViolation)
            } else if results@[0].status_code.good() {
                Ok(results@[0].monitored_item_id)
            } else {
                Err(Error::ServiceFailure(results@[0].status_code))
            },
        },
    }
}

impl AsyncMonitoredItem {
    /// Number of the subscription that the item belongs to.
    pub closed spec fn parent(&self) -> SubscriptionId {
        self.subscription_id
    }

    /// Number that the server gave the item.
    pub closed spec fn id(&self) -> MonitoredItemId {
        self.monitored_item_id
    }

    /// The monitored item of subscription `subscription_id` that the given
    /// response reports, or the error that the request ended with.
    pub fn new(
        subscription_id: &SubscriptionId,
        response: Result<CreateMonitoredItemsResponse, Error>,
    ) -> (item: Result<Self, Error>)
        ensures
            match monitored_item_outcome(response) {
                Ok(id) => item is Ok && item->Ok_0.id() == id && item->Ok_0.parent()
                    == *subscription_id,
                Err(error) => item is Err && item->Err_0 == error,
            },
    {
        let response = match response {
            Ok(response) => response,
            Err(error) => { return Err(error); },
        };
        let Some(results) = response.results else {
            return Err(Error::internal());
        };
        if results.len() == 0 {
            return Err(Error::internal());
        }
        match Error::verify_good(&results[0].status_code) {
            Ok(()) => Ok(
                AsyncMonitoredItem {
                    subscription_id: *subscription_id,
                    monitored_item_id: results[0].monitored_item_id,
                },
            ),
            Err(error) => Err(error),
        }
    }

    /// Number of the subscription that the item belongs to.
    pub fn subscription_id(&self) -> (id: SubscriptionId)
        ensures
            id == self.parent(),
    {
        self.subscription_id
    }

    /// Number that the server gave the item.
    pub fn monitored_item_id(&self) -> (id: MonitoredItemId)
        ensures
            id == self.id(),
    {
        self.monitored_item_id
    }

    /// Ends the monitored item: where the client is still there, the one
    /// request that deletes this item on the server, to be sent without
    /// waiting for its completion; nothing where the client is gone.
    pub fn teardown(
        &self,
        client: Option<&AsyncClient>,
    ) -> (request: Option<DeleteMonitoredItemsRequest>)
        ensures
            client is None ==> request is None,
            client is Some ==> request is Some && request->0.subscription_id == self.parent()
                && request->0.monitored_item_ids@ == seq![self.id()],
    {
        let Some(_client) = client else {
            return None;
        };
        let mut monitored_item_ids: Vec<MonitoredItemId> = Vec::new();
        monitored_item_ids.push(self.monitored_item_id);
        Some(
            DeleteMonitoredItemsRequest {
                subscription_id: self.subscription_id,
                monitored_item_ids,
            },
        )
    }
}

} // verus!
