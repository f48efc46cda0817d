use vstd::prelude::*;

verus! {

/// Common types shared between node and manager messages
#[derive(Clone, Copy, Debug, PartialEq, Eq, Structural)]
pub enum NodeType {
    Full,
    Agent,
}

#[derive(Clone, Copy, Debug, PartialEq, Eq, Structural)]
pub enum NodeStatus {
    Deploying,
    Running,
    Stopped,
    Failed,
    Unknown,
}

#[derive(Clone, Copy, Debug, PartialEq, Eq, Structural)]
pub enum HoneypotStatus {
    Installing,
    Running,
    Stopped,
    Failed,
}

/// The name of a status, as `{:?}` prints it.
pub open spec fn status_name(s: NodeStatus) -> Seq<char> {
    match s {
        NodeStatus::Deploying => "Deploying"@,
        NodeStatus::Running => "Running"@,
        NodeStatus::Stopped => "Stopped"@,
        NodeStatus::Failed => "Failed"@,
        NodeStatus::Unknown => "Unknown"@,
    }
}

impl NodeStatus {
    /// The variant's name (what `{:?}` prints).
    pub fn name(&self) -> (r: String)
        ensures
            r@ == status_name(*self),
    {
        match self {
            NodeStatus::Deploying => "Deploying".to_owned(),
            NodeStatus::Running => "Running".to_owned(),
            NodeStatus::Stopped => "Stopped".to_owned(),
            NodeStatus::Failed => "Failed".to_owned(),
            NodeStatus::Unknown => "Unknown".to_owned(),
        }
    }
}

/// Message envelope wrapping all protocol messages
pub struct MessageEnvelope<T> {
    pub version: u64,
    pub message: T,
}

impl<T> MessageEnvelope<T> {
    pub fn new(version: u64, message: T) -> (e: Self)
        ensures
            e.version == version,
            e.message == message,
    {
        MessageEnvelope { version, message }
    }
}

/// Protocol version constant
pub const PROTOCOL_VERSION: u64 = 2;

} // verus!
