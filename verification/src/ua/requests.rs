use vstd::prelude::*;

use crate::ua::data_types::node_id::NodeId;
use crate::ua::values::{
    AttributeId, ContinuationPoint, DataValue, MonitoredItemId, SubscriptionId, Variant,
};

verus! {

/// One attribute of one node to read.
#[derive(Clone, Debug, PartialEq, Eq)]
pub struct ReadValueId<'a> {
    pub node_id: &'a NodeId,
    pub attribute_id: AttributeId,
}

/// Request to read a list of attributes.
#[derive(Clone, Debug, PartialEq, Eq)]
pub struct ReadRequest<'a> {
    pub nodes_to_read: Vec<ReadValueId<'a>>,
}

/// One attribute of one node to write, with the value to write.
#[derive(Clone, Debug, PartialEq, Eq)]
pub struct WriteValue<'a> {
    pub node_id: &'a NodeId,
    pub attribute_id: AttributeId,
    pub value: &'a DataValue,
}

/// Request to write a list of attributes.
#[derive(Clone, Debug, PartialEq, Eq)]
pub struct WriteRequest<'a> {
    pub nodes_to_write: Vec<WriteValue<'a>>,
}

/// One method to call on one object, with its input arguments.
#[derive(Clone, Debug, PartialEq, Eq)]
pub struct CallMethodRequest<'a> {
    pub object_id: &'a NodeId,
    pub method_id: &'a NodeId,
    pub input_arguments: &'a [Variant],
}

/// Request to call a list of methods.
#[derive(Clone, Debug, PartialEq, Eq)]
pub struct CallRequest<'a> {
    pub methods_to_call: Vec<CallMethodRequest<'a>>,
}

/// One node whose references to list.
#[derive(Clone, Debug, PartialEq, Eq)]
pub struct BrowseDescription<'a> {
    pub node_id: &'a NodeId,
}

/// Request to browse a list of nodes.
#[derive(Clone, Debug, PartialEq, Eq)]
pub struct BrowseRequest<'a> {
    pub nodes_to_browse: Vec<BrowseDescription<'a>>,
}

/// Request for the next pages of earlier browses.
#[derive(Clone, Debug, PartialEq, Eq)]
pub struct BrowseNextRequest<'a> {
    pub continuation_points: &'a [ContinuationPoint],
}

/// Request to create a subscription, with the server's defaults.
#[derive(Clone, Debug, PartialEq, Eq)]
pub struct CreateSubscriptionRequest {}

/// Request to delete a list of subscriptions.
#[derive(Clone, Debug, PartialEq, Eq)]
pub struct DeleteSubscriptionsRequest {
    pub subscription_ids: Vec<SubscriptionId>,
}

/// One node whose value attribute to monitor.
#[derive(Clone, Debug, PartialEq, Eq)]
pub struct MonitoredItemCreateRequest<'a> {
    pub node_id: &'a NodeId,
    pub attribute_id: AttributeId,
}

/// Request to create a list of monitored items on one subscription.
#[derive(Clone, Debug, PartialEq, Eq)]
pub struct CreateMonitoredItemsRequest<'a> {
    pub subscription_id: SubscriptionId,
    pub items_to_create: Vec<MonitoredItemCreateRequest<'a>>,
}

/// Request to delete a list of monitored items of one subscription.
#[derive(Clone, Debug, PartialEq, Eq)]
pub struct DeleteMonitoredItemsRequest {
    pub subscription_id: SubscriptionId,
    pub monitored_item_ids: Vec<MonitoredItemId>,
}

} // verus!
