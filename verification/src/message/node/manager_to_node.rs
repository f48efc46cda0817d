use vstd::prelude::*;

use std::collections::HashMap;

verus! {

/// Identifier of a honeypot ("pot") on a node
pub type PotId = String;

/// The empty payload of the commands that carry no data (`Restart`,
/// `UpdateConfig`, `GetInstalledPots`).
#[derive(Clone, Copy, Debug, PartialEq, Eq, Structural)]
pub struct Unit;

/// Messages sent from Manager → Node
pub enum ManagerToNodeMessage {
    NodeCommand(NodeCommand),
    RegistrationAck(RegistrationAck),
}

pub struct RegistrationAck {
    pub node_id: u64,
    pub accepted: bool,
    pub message: Option<String>,
}

pub struct NodeCommand {
    pub node_id: u64,
    pub command: NodeCommandType,
}

pub enum NodeCommandType {
    Restart(Unit),
    UpdateConfig(Unit),
    InstallPot(InstallPot),
    DeployPot(PotId),
    GetPotStatus(PotId),
    RestartPot(PotId),
    StopPot(PotId),
    GetPotLogs(PotId),
    GetPotMetrics(PotId),
    GetPotInfo(PotId),
    GetInstalledPots(Unit),
}

pub struct InstallPot {
    pub pot_id: PotId,
    pub honeypot_type: String,
    pub git_url: Option<String>,
    pub git_branch: Option<String>,
    pub config: Option<HashMap<String, String>>,
    pub auto_start: bool,
}

} // verus!
