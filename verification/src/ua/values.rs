use vstd::prelude::*;

use crate::ua::data_types::byte_string::ByteString;
use crate::ua::data_types::expanded_node_id::ExpandedNodeId;
use crate::ua::data_types::node_id::NodeId;
use crate::ua::data_types::string::String;
use crate::ua::status_code::StatusCode;

verus! {

/// Attribute of a node, by its number in the protocol.
#[derive(Clone, Copy, Debug, PartialEq, Eq, Structural)]
pub struct AttributeId {
    pub raw: u32,
}

/// Number of the attribute that holds a node's ID.
pub const ATTRIBUTE_NODE_ID: u32 = 1;

/// Number of the attribute that holds a variable's value.
pub const ATTRIBUTE_VALUE: u32 = 13;

/// Number of the attribute that holds a variable's data type.
pub const ATTRIBUTE_DATA_TYPE: u32 = 14;

impl AttributeId {
    /// The attribute with the given number.
    pub fn new(raw: u32) -> (id: Self)
        ensures
            id.raw == raw,
    {
        AttributeId { raw }
    }

    /// The attribute that holds a node's ID.
    pub fn node_id() -> (id: Self)
        ensures
            id.raw == ATTRIBUTE_NODE_ID,
    {
        AttributeId { raw: ATTRIBUTE_NODE_ID }
    }

    /// The attribute that holds a variable's value.
    pub fn value() -> (id: Self)
        ensures
            id.raw == ATTRIBUTE_VALUE,
    {
        AttributeId { raw: ATTRIBUTE_VALUE }
    }

    /// The attribute that holds a variable's data type.
    pub fn data_type() -> (id: Self)
        ensures
            id.raw == ATTRIBUTE_DATA_TYPE,
    {
        AttributeId { raw: ATTRIBUTE_DATA_TYPE }
    }
}

/// Scalar payload of a data value. A floating-point number is held by the
/// bit pattern of its IEEE 754 double-precision form.
#[derive(Clone, Debug, PartialEq, Eq)]
pub enum Variant {
    Empty,
    Boolean(bool),
    Int32(i32),
    UInt32(u32),
    Int64(i64),
    UInt64(u64),
    Double(u64),
    String(String),
    ByteString(ByteString),
    NodeId(NodeId),
}

/// Value of an attribute as the server reports it: the payload, where there
/// is one, and the status of this one value, where the server gave one.
#[derive(Clone, Debug, PartialEq, Eq)]
pub struct DataValue {
    pub value: Option<Variant>,
    pub status_code: Option<StatusCode>,
}

impl DataValue {
    /// Data value without payload or status.
    pub fn init() -> (data_value: Self)
        ensures
            data_value.value is None,
            data_value.status_code is None,
    {
        DataValue { value: None, status_code: None }
    }

    /// The same data value with the given payload.
    pub fn with_value(self, value: Variant) -> (data_value: Self)
        ensures
            data_value.value == Some(value),
            data_value.status_code == self.status_code,
    {
        DataValue { value: Some(value), status_code: self.status_code }
    }
}

/// Server-issued token that retrieves the next page of a browse.
#[derive(Clone, Debug, PartialEq, Eq)]
pub struct ContinuationPoint {
    pub token: ByteString,
}

/// One reference that a browse found: its type, its direction and its target.
#[derive(Clone, Debug, PartialEq, Eq)]
pub struct ReferenceDescription {
    pub reference_type_id: NodeId,
    pub is_forward: bool,
    pub node_id: ExpandedNodeId,
}

/// State of the client's connection: of its secure channel, of its session,
/// and the status of the last attempt to connect.
#[derive(Clone, Copy, Debug, PartialEq, Eq, Structural)]
pub struct ClientState {
    pub channel_state: u32,
    pub session_state: u32,
    pub connect_status: StatusCode,
}

/// Server-assigned number of a subscription.
#[derive(Clone, Copy, Debug, PartialEq, Eq, Structural)]
pub struct SubscriptionId {
    pub raw: u32,
}

/// Server-assigned number of a monitored item within its subscription.
#[derive(Clone, Copy, Debug, PartialEq, Eq, Structural)]
pub struct MonitoredItemId {
    pub raw: u32,
}

} // verus!
