use vstd::prelude::*;

use crate::config::SanitizedConfig;
use crate::message::node_to_manager::{NodeEvent, NodeStatusUpdate};
use crate::node_manager::node::Node;

verus! {

pub enum ManagerToBackendMessage {
    ManagerRegistrationAck(BackendRegistrationAck),
    CommandResponse,
    BackendResponse(BackendResponse),
    NodeEvent { event: NodeEvent, node_id: u64 },
    NodeStatusUpdate(NodeStatusUpdate),
    CoreLog(CoreLogMessage),
}

pub struct CoreLogMessage {
    pub level: String,
    pub target: String,
    pub message: String,
    pub timestamp: String,
}

pub struct BackendRegistrationAck {
    pub backend_id: u64,
    pub accepted: bool,
    pub message: Option<String>,
}

pub enum BackendResponse {
    Success { message: Option<String>, data: Option<ResponseData> },
    Failure(String),
}

/// The payload of a successful response. On the wire each variant is a JSON
/// value; the comment gives its shape.
pub enum ResponseData {
    /// `{"nodes": [id, ...]}`
    NodeIds(Vec<u64>),
    /// the node itself: `{"id": .., "name": .., "status": ..}`
    Node(Node),
    /// `{"node": node}`
    NodeEntry(Node),
    /// `{"nodes": [node, ...]}`
    Nodes(Vec<Node>),
    /// `{"count": n}`
    Count(u64),
    /// `{"active_connections": n}`
    ActiveConnections(u64),
    /// `{"backend_id": id}`
    BackendId(u64),
    /// `{"response": response}`
    Response(Box<BackendResponse>),
    /// the configuration without its secrets
    Config(SanitizedConfig),
    /// any other JSON value, as JSON text
    Json(String),
}

} // verus!
