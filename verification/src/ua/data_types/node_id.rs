use vstd::prelude::*;

use crate::ua::data_types::byte_string::ByteString;

verus! {

/// Kind of identifier that a node ID holds.
#[derive(Clone, Copy, Debug, PartialEq, Eq, Structural)]
pub enum NodeIdType {
    Numeric,
    String,
    Guid,
    ByteString,
}

/// Identifier of a node within its namespace.
#[derive(Clone, Debug, PartialEq, Eq)]
pub enum Identifier {
    Numeric(u32),
    String(std::string::String),
    Guid(u128),
    ByteString(ByteString),
}

/// What an identifier is, as a mathematical value.
pub enum IdentifierView {
    Numeric(u32),
    String(Seq<char>),
    Guid(u128),
    ByteString(Option<Seq<u8>>),
}

impl View for Identifier {
    type V = IdentifierView;

    open spec fn view(&self) -> IdentifierView {
        match *self {
            Identifier::Numeric(numeric) => IdentifierView::Numeric(numeric),
            Identifier::String(string) => IdentifierView::String(string@),
            Identifier::Guid(guid) => IdentifierView::Guid(guid),
            Identifier::ByteString(bytes) => IdentifierView::ByteString(bytes@),
        }
    }
}

impl IdentifierView {
    /// Kind of this identifier.
    pub open spec fn kind(self) -> NodeIdType {
        match self {
            IdentifierView::Numeric(_) => NodeIdType::Numeric,
            IdentifierView::String(_) => NodeIdType::String,
            IdentifierView::Guid(_) => NodeIdType::Guid,
            IdentifierView::ByteString(_) => NodeIdType::ByteString,
        }
    }
}

/// Identity of a node: a namespace and an identifier within it.
#[derive(Clone, Debug, PartialEq, Eq)]
pub struct NodeId {
    namespace_index: u16,
    identifier: Identifier,
}

/// What a node ID is, as a mathematical value.
pub struct NodeIdView {
    pub namespace_index: u16,
    pub identifier: IdentifierView,
}

impl View for NodeId {
    type V = NodeIdView;

    closed spec fn view(&self) -> NodeIdView {
        NodeIdView { namespace_index: self.namespace_index, identifier: self.identifier@ }
    }
}

/// Whether no character of `text` is NUL.
pub open spec fn nul_free(text: Seq<char>) -> bool {
    forall|i: int| 0 <= i < text.len() ==> text[i] != '\0'
}

impl NodeId {
    /// Creates node ID for numeric identifier.
    pub fn numeric(ns_index: u16, numeric: u32) -> (node_id: Self)
        ensures
            node_id@ == (NodeIdView {
                namespace_index: ns_index,
                identifier: IdentifierView::Numeric(numeric),
            }),
    {
        NodeId { namespace_index: ns_index, identifier: Identifier::Numeric(numeric) }
    }

    /// Creates node ID for string identifier, which holds no NUL character.
    pub fn string(ns_index: u16, string: &str) -> (node_id: Self)
        requires
            nul_free(string@),
        ensures
            node_id@ == (NodeIdView {
                namespace_index: ns_index,
                identifier: IdentifierView::String(string@),
            }),
    {
        NodeId { namespace_index: ns_index, identifier: Identifier::String(string.to_owned()) }
    }

    /// Creates node ID for the given identifier.
    pub fn new(ns_index: u16, identifier: Identifier) -> (node_id: Self)
        ensures
            node_id@ == (NodeIdView { namespace_index: ns_index, identifier: identifier@ }),
    {
        NodeId { namespace_index: ns_index, identifier }
    }

    /// Namespace that the identifier belongs to.
    pub fn namespace_index(&self) -> (ns_index: u16)
        ensures
            ns_index == self@.namespace_index,
    {
        self.namespace_index
    }

    /// Identifier within the namespace.
    pub fn identifier(&self) -> (identifier: &Identifier)
        ensures
            identifier@ == self@.identifier,
    {
        &self.identifier
    }

    /// Kind of identifier that this node ID holds.
    pub fn identifier_type(&self) -> (kind: &NodeIdType)
        ensures
            *kind == self@.identifier.kind(),
    {
        match &self.identifier {
            Identifier::Numeric(_) => &NodeIdType::Numeric,
            Identifier::String(_) => &NodeIdType::String,
            Identifier::Guid(_) => &NodeIdType::Guid,
            Identifier::ByteString(_) => &NodeIdType::ByteString,
        }
    }
}

} // verus!
