//! The protocol spoken between the manager, its honeypot nodes and its backends.
pub mod backend;
pub mod bidirectional;
pub mod common;
pub mod manager_to_node;
pub mod node;
pub mod node_to_manager;
