use vstd::prelude::*;

use crate::ua::status_code::StatusCode;
use crate::ua::values::{
    ContinuationPoint, DataValue, MonitoredItemId, ReferenceDescription, SubscriptionId, Variant,
};

verus! {

/// Response to a read request: one data value for each attribute asked for.
#[derive(Clone, Debug, PartialEq, Eq)]
pub struct ReadResponse {
    pub service_result: StatusCode,
    pub results: Option<Vec<DataValue>>,
}

/// Response to a write request: one status for each attribute written.
#[derive(Clone, Debug, PartialEq, Eq)]
pub struct WriteResponse {
    pub service_result: StatusCode,
    pub results: Option<Vec<StatusCode>>,
}

/// Outcome of one method call; a method without return value has no output
/// arguments.
#[derive(Clone, Debug, PartialEq, Eq)]
pub struct CallMethodResult {
    pub status_code: StatusCode,
    pub output_arguments: Option<Vec<Variant>>,
}

/// Response to a call request: one result for each method called.
#[derive(Clone, Debug, PartialEq, Eq)]
pub struct CallResponse {
    pub service_result: StatusCode,
    pub results: Option<Vec<CallMethodResult>>,
}

/// Outcome of browsing one node or of continuing one browse: a page of
/// references, and the token for the next page where there is one.
#[derive(Clone, Debug, PartialEq, Eq)]
pub struct BrowseResult {
    pub status_code: StatusCode,
    pub references: Option<Vec<ReferenceDescription>>,
    pub continuation_point: Option<ContinuationPoint>,
}

/// Response to a browse request: one result for each node browsed.
#[derive(Clone, Debug, PartialEq, Eq)]
pub struct BrowseResponse {
    pub service_result: StatusCode,
    pub results: Option<Vec<BrowseResult>>,
}

/// Response to a browse-next request: one result for each continuation point.
#[derive(Clone, Debug, PartialEq, Eq)]
pub struct BrowseNextResponse {
    pub service_result: StatusCode,
    pub results: Option<Vec<BrowseResult>>,
}

/// Response to the request to create a subscription.
#[derive(Clone, Debug, PartialEq, Eq)]
pub struct CreateSubscriptionResponse {
    pub service_result: StatusCode,
    pub subscription_id: SubscriptionId,
}

/// Outcome of creating one monitored item.
#[derive(Clone, Debug, PartialEq, Eq)]
pub struct MonitoredItemCreateResult {
    pub status_code: StatusCode,
    pub monitored_item_id: MonitoredItemId,
}

/// Response to the request to create monitored items: one result for each item.
#[derive(Clone, Debug, PartialEq, Eq)]
pub struct CreateMonitoredItemsResponse {
    pub service_result: StatusCode,
    pub results: Option<Vec<MonitoredItemCreateResult>>,
}

} // verus!
