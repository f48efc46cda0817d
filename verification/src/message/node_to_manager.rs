use vstd::prelude::*;

use std::collections::HashMap;

use crate::message::common::{HoneypotStatus, NodeStatus, NodeType};

verus! {

/// Messages sent from Node → Manager
pub enum NodeToManagerMessage {
    NodeRegistration(NodeRegistration),
    NodeStatusUpdate(NodeStatusUpdate),
    NodeEvent(NodeEvent),
    NodeDrop,
    // Honeypot-specific messages
    HoneypotStatusUpdate(HoneypotStatusUpdate),
    HoneypotEvent(HoneypotEvent),
}

pub struct NodeRegistration {
    pub node_id: u64,
    pub node_name: String,
    pub address: String,
    pub port: u16,
    pub node_type: NodeType,
}

#[derive(Clone, Copy, Debug, PartialEq, Eq, Structural)]
pub struct NodeStatusUpdate {
    pub node_id: u64,
    pub status: NodeStatus,
}

pub enum NodeEvent {
    Started,
    Stopped,
    Alarm { description: String },
    Error { message: String },
}

/// Reports the current state of a honeypot
pub struct HoneypotStatusUpdate {
    pub node_id: u64,
    pub honeypot_id: String,
    pub honeypot_type: String,
    pub status: HoneypotStatus,
    pub message: Option<String>,
    pub ssh_port: Option<u16>,
    pub telnet_port: Option<u16>,
}

/// Represents events captured by the honeypot (attacks, sessions, etc.).
/// `raw_event` maps each field name of the event, as the honeypot reported it, to its JSON text.
pub struct HoneypotEvent {
    pub node_id: u64,
    pub honeypot_id: String,
    pub honeypot_type: String,
    pub eventid: String,
    pub timestamp: String,
    pub session: Option<String>,
    pub src_ip: Option<String>,
    pub src_port: Option<u16>,
    pub dst_ip: Option<String>,
    pub dst_port: Option<u16>,
    pub protocol: Option<String>,
    pub username: Option<String>,
    pub password: Option<String>,
    pub input: Option<String>,
    pub message: Option<String>,
    pub success: Option<bool>,
    pub raw_event: Option<HashMap<String, String>>,
}

} // verus!
