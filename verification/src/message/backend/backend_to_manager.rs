use vstd::prelude::*;

use crate::message::backend::backend_type::BackendType;
use crate::message::common::NodeStatus;
use crate::message::node::manager_to_node::NodeCommandType;

verus! {

/// Messages sent from Backend → Manager
pub enum BackendToManagerMessage {
    BackendRegistration(BackendRegistration),
    BackendCommand(BackendCommand),
    BackendDrop,
}

pub struct BackendRegistration {
    pub backend_name: String,
    pub backend_type: BackendType,
}

pub enum BackendCommand {
    NodeCommand { node_id: u64, command: NodeCommandType },
    BroadcastCommand { command: NodeCommandType },
    GetNodes,
    GetNode { node_id: u64 },
    GetNodesByStatus { status: NodeStatus },
    GetNodeCount,
    RemoveNode { node_id: u64 },
    GetActiveConnections,
}

} // verus!
