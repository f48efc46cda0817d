//! The description of a honeypot node to be deployed.
use vstd::prelude::*;

use std::collections::HashMap;

verus! {

#[derive(Clone, Debug)]
pub struct Node {
    id: u64,
    name: String,
    deployment_config: DeploymentConfig,
    status: NodeStatus,
    created_at: u64,
}

#[derive(Clone, Copy, Debug, PartialEq, Eq, Structural)]
pub enum NodeStatus {
    Deploying,
    Running,
    Stopped,
    Failed,
    Unknown,
}

/// Where and how a node is deployed. `config` maps each setting's name to
/// its value as JSON text.
#[derive(Clone, Debug)]
pub struct DeploymentConfig {
    pub node_type: NodeType,
    pub address: String,
    pub port: u16,
    pub config: HashMap<String, String>,
}

#[derive(Clone, Copy, Debug, PartialEq, Eq, Structural)]
pub enum NodeType {
    Full,
    Agent,
}

impl Default for DeploymentConfig {
    /// An agent on `0.0.0.0:8080` with no settings.
    fn default() -> (c: Self)
        ensures
            c.node_type == NodeType::Agent,
            c.address@ == "0.0.0.0"@,
            c.port == 8080,
            c.config@ == Map::<String, String>::empty(),
    {
        DeploymentConfig {
            node_type: NodeType::Agent,
            address: "0.0.0.0".to_owned(),
            port: 8080,
            config: HashMap::new(),
        }
    }
}

impl Default for Node {
    /// Node 0, unnamed, default deployment, status unknown, created at 0.
    fn default() -> (n: Self)
        ensures
            n.id() == 0,
            n.name()@.len() == 0,
            n.status() == NodeStatus::Unknown,
            n.created_at() == 0,
            n.deployment_config().node_type == NodeType::Agent,
            n.deployment_config().address@ == "0.0.0.0"@,
            n.deployment_config().port == 8080,
            n.deployment_config().config@ == Map::<String, String>::empty(),
    {
        Node {
            id: 0,
            name: String::new(),
            deployment_config: DeploymentConfig::default(),
            status: NodeStatus::Unknown,
            created_at: 0,
        }
    }
}

impl Node {
    pub closed spec fn id(&self) -> u64 {
        self.id
    }

    pub closed spec fn name(&self) -> String {
        self.name
    }

    pub closed spec fn deployment_config(&self) -> DeploymentConfig {
        self.deployment_config
    }

    pub closed spec fn status(&self) -> NodeStatus {
        self.status
    }

    pub closed spec fn created_at(&self) -> u64 {
        self.created_at
    }

    /// A node being deployed, created at `created_at` (seconds since the
    /// Unix epoch).
    pub fn new(id: u64, name: String, deployment_config: DeploymentConfig, created_at: u64) -> (n: Self)
        ensures
            n.id() == id,
            n.name() == name,
            n.deployment_config() == deployment_config,
            n.status() == NodeStatus::Deploying,
            n.created_at() == created_at,
    {
        Node { id, name, deployment_config, status: NodeStatus::Deploying, created_at }
    }
}

} // verus!
