//! Plain-value counterparts of the protocol engine's data types.

pub mod array_value;
pub mod data_types;
pub mod requests;
pub mod responses;
pub mod status_code;
pub mod values;

pub use array_value::ArrayValue;
pub use data_types::byte_string::ByteString;
pub use data_types::expanded_node_id::ExpandedNodeId;
pub use data_types::node_id::{Identifier, NodeId, NodeIdType};
pub use data_types::string::String;
pub use requests::{
    BrowseDescription, BrowseNextRequest, BrowseRequest, CallMethodRequest, CallRequest,
    CreateMonitoredItemsRequest, CreateSubscriptionRequest, DeleteMonitoredItemsRequest,
    DeleteSubscriptionsRequest, MonitoredItemCreateRequest, ReadRequest, ReadValueId,
    WriteRequest, WriteValue,
};
pub use responses::{
    BrowseNextResponse, BrowseResponse, BrowseResult, CallMethodResult, CallResponse,
    CreateMonitoredItemsResponse, CreateSubscriptionResponse, MonitoredItemCreateResult,
    ReadResponse, WriteResponse,
};
pub use status_code::StatusCode;
pub use values::{
    AttributeId, ClientState, ContinuationPoint, DataValue, MonitoredItemId, ReferenceDescription,
    SubscriptionId, Variant,
};
