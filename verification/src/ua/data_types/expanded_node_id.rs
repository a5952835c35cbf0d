use vstd::prelude::*;

use crate::ua::data_types::node_id::{IdentifierView, NodeId, NodeIdView};
use crate::ua::data_types::string::String;

verus! {

/// Node ID that may reach into another server: a node ID, the URI of its
/// namespace where the index does not give it, and the index of the server.
#[derive(Clone, Debug, PartialEq, Eq)]
pub struct ExpandedNodeId {
    node_id: NodeId,
    namespace_uri: String,
    server_index: u32,
}

/// What an expanded node ID is, as a mathematical value.
pub struct ExpandedNodeIdView {
    pub node_id: NodeIdView,
    pub namespace_uri: Option<Seq<char>>,
    pub server_index: u32,
}

impl View for ExpandedNodeId {
    type V = ExpandedNodeIdView;

    closed spec fn view(&self) -> ExpandedNodeIdView {
        ExpandedNodeIdView {
            node_id: self.node_id@,
            namespace_uri: self.namespace_uri@,
            server_index: self.server_index,
        }
    }
}

impl ExpandedNodeId {
    /// Creates numeric expanded node ID: on the local server, with no namespace URI.
    pub fn numeric(ns_index: u16, numeric: u32) -> (expanded: Self)
        ensures
            expanded@ == (ExpandedNodeIdView {
                node_id: NodeIdView {
                    namespace_index: ns_index,
                    identifier: IdentifierView::Numeric(numeric),
                },
                namespace_uri: None,
                server_index: 0,
            }),
    {
        ExpandedNodeId {
            node_id: NodeId::numeric(ns_index, numeric),
            namespace_uri: String::invalid(),
            server_index: 0,
        }
    }

    /// Creates expanded node ID from its parts.
    pub fn new(node_id: NodeId, namespace_uri: String, server_index: u32) -> (expanded: Self)
        ensures
            expanded@ == (ExpandedNodeIdView {
                node_id: node_id@,
                namespace_uri: namespace_uri@,
                server_index,
            }),
    {
        ExpandedNodeId { node_id, namespace_uri, server_index }
    }

    /// The node ID.
    pub fn node_id(&self) -> (node_id: &NodeId)
        ensures
            node_id@ == self@.node_id,
    {
        &self.node_id
    }

    /// URI of the namespace; unset where the node ID's namespace index gives it.
    pub fn namespace_uri(&self) -> (uri: &String)
        ensures
            uri@ == self@.namespace_uri,
    {
        &self.namespace_uri
    }

    /// Index of the server that holds the node; 0 is the local server.
    pub fn server_index(&self) -> (index: u32)
        ensures
            index == self@.server_index,
    {
        self.server_index
    }
}

} // verus!
