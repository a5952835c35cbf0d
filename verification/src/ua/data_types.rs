//! Identifiers and strings.

pub mod byte_string;
pub mod expanded_node_id;
pub mod node_id;
pub mod string;
