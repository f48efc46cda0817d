//! The wire layout in which every message kind is an optional field of one
//! record (the layout the Go side of the protocol uses).
pub mod manager_to_node;

use vstd::prelude::*;

use std::collections::HashMap;

use crate::message::common::{HoneypotStatus, NodeStatus, NodeType};

verus! {

pub struct MessageEnvelope {
    pub version: u64,
    pub message: MessageType,
}

/// MessageType represents all possible message types in the protocol
#[allow(non_snake_case)]
pub struct MessageType {
    // Node to Manager messages
    pub NodeRegistration: Option<NodeRegistration>,
    pub NodeStatusUpdate: Option<NodeStatusUpdate>,
    pub NodeEvent: Option<NodeEvent>,
    pub NodeDrop: Option<bool>,
    // Honeypot-specific messages (Node → Manager)
    pub HoneypotStatusUpdate: Option<HoneypotStatusUpdate>,
    pub HoneypotEvent: Option<HoneypotEvent>,
    // Manager to Node messages
    pub NodeCommand: Option<NodeCommand>,
    pub RegistrationAck: Option<RegistrationAck>,
    // Honeypot commands (Manager → Node)
    pub InstallHoneypot: Option<InstallHoneypotCmd>,
    pub StartHoneypot: Option<StartHoneypotCmd>,
    pub StopHoneypot: Option<StopHoneypotCmd>,
}

pub struct NodeRegistration {
    pub node_id: u64,
    pub node_name: String,
    pub address: String,
    pub port: u16,
    pub node_type: NodeType,
    pub totp_code: Option<String>,
}

#[derive(Clone, Copy, Debug, PartialEq, Eq, Structural)]
pub struct NodeStatusUpdate {
    pub node_id: u64,
    pub status: NodeStatus,
}

pub struct NodeEvent {
    pub event_type: String,
    pub message: Option<String>,
    pub description: Option<String>,
}

pub struct NodeCommand {
    pub node_id: u64,
    pub command: String,
}

pub struct RegistrationAck {
    pub node_id: u64,
    pub accepted: bool,
    pub message: Option<String>,
    pub totp_key: Option<String>,
}

pub struct HoneypotStatusUpdate {
    pub node_id: u64,
    pub honeypot_id: String,
    pub honeypot_type: String,
    pub status: HoneypotStatus,
    pub message: Option<String>,
    pub ssh_port: Option<u16>,
    pub telnet_port: Option<u16>,
}

/// `raw_event` maps each field name of the event, as the honeypot reported it, to its JSON text.
pub struct HoneypotEvent {
    pub node_id: u64,
    pub honeypot_id: String,
    pub honeypot_type: String,
    pub eventid: String,
    pub timestamp: String,
    pub session: Option<String>,
    pub src_ip: Option<String>,
    pub src_port: Option<u16>,
    pub dst_ip: Option<String>,
    pub dst_port: Option<u16>,
    pub protocol: Option<String>,
    pub username: Option<String>,
    pub password: Option<String>,
    pub input: Option<String>,
    pub message: Option<String>,
    pub success: Option<bool>,
    pub raw_event: Option<HashMap<String, String>>,
}

pub struct InstallHoneypotCmd {
    pub honeypot_id: String,
    pub honeypot_type: String,
    pub git_url: String,
    pub git_branch: Option<String>,
    pub config: Option<HashMap<String, String>>,
    pub ssh_port: Option<u16>,
    pub telnet_port: Option<u16>,
    pub auto_start: bool,
}

pub struct StartHoneypotCmd {
    pub honeypot_id: String,
}

pub struct StopHoneypotCmd {
    pub honeypot_id: String,
}

} // verus!
