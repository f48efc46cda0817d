use vstd::prelude::*;

use std::collections::HashMap;

verus! {

/// Messages sent from Manager → Node, with commands given as text and the
/// honeypot commands.
pub enum ManagerToNodeMessage {
    NodeCommand(NodeCommand),
    RegistrationAck(RegistrationAck),
    // Honeypot commands
    InstallHoneypot(InstallHoneypotCmd),
    StartHoneypot(StartHoneypotCmd),
    StopHoneypot(StopHoneypotCmd),
}

pub struct NodeCommand {
    pub node_id: u64,
    pub command: String,
}

impl NodeCommand {
    /// Standard command: request status update
    pub fn status(node_id: u64) -> (c: Self)
        ensures
            c.node_id == node_id,
            c.command@ == "status"@,
    {
        Self { node_id, command: "status".to_owned() }
    }

    /// Standard command: stop node operations
    pub fn stop(node_id: u64) -> (c: Self)
        ensures
            c.node_id == node_id,
            c.command@ == "stop"@,
    {
        Self { node_id, command: "stop".to_owned() }
    }

    /// Standard command: restart node
    pub fn restart(node_id: u64) -> (c: Self)
        ensures
            c.node_id == node_id,
            c.command@ == "restart"@,
    {
        Self { node_id, command: "restart".to_owned() }
    }

    /// Custom command
    pub fn custom(node_id: u64, command: String) -> (c: Self)
        ensures
            c.node_id == node_id,
            c.command == command,
    {
        Self { node_id, command }
    }
}

pub struct RegistrationAck {
    pub node_id: u64,
    pub accepted: bool,
    pub message: Option<String>,
}

/// Instructs the node to install a honeypot from a Git repository
pub struct InstallHoneypotCmd {
    pub honeypot_id: String,
    pub honeypot_type: String,
    pub git_url: String,
    pub git_branch: Option<String>,
    pub config: Option<HashMap<String, String>>,
    pub ssh_port: Option<u16>,
    pub telnet_port: Option<u16>,
    pub auto_start: bool,
}

impl InstallHoneypotCmd {
    /// Create a new Cowrie installation command: SSH on 2222, Telnet on
    /// 2223, started once installed.
    pub fn cowrie(honeypot_id: String, git_url: String) -> (c: Self)
        ensures
            c.honeypot_id == honeypot_id,
            c.honeypot_type@ == "cowrie"@,
            c.git_url == git_url,
            c.git_branch is None,
            c.config is None,
            c.ssh_port == Some(2222u16),
            c.telnet_port == Some(2223u16),
            c.auto_start,
    {
        Self {
            honeypot_id,
            honeypot_type: "cowrie".to_owned(),
            git_url,
            git_branch: None,
            config: None,
            ssh_port: Some(2222),
            telnet_port: Some(2223),
            auto_start: true,
        }
    }

    /// Set custom branch
    pub fn with_branch(self, branch: &str) -> (c: Self)
        ensures
            c.git_branch matches Some(b) && b@ == branch@,
            c.honeypot_id == self.honeypot_id,
            c.honeypot_type == self.honeypot_type,
            c.git_url == self.git_url,
            c.config == self.config,
            c.ssh_port == self.ssh_port,
            c.telnet_port == self.telnet_port,
            c.auto_start == self.auto_start,
    {
        let mut c = self;
        c.git_branch = Some(branch.to_owned());
        c
    }

    /// Set SSH port
    pub fn with_ssh_port(self, port: u16) -> (c: Self)
        ensures
            c == (Self { ssh_port: Some(port), ..self }),
    {
        let mut c = self;
        c.ssh_port = Some(port);
        c
    }

    /// Set Telnet port
    pub fn with_telnet_port(self, port: u16) -> (c: Self)
        ensures
            c == (Self { telnet_port: Some(port), ..self }),
    {
        let mut c = self;
        c.telnet_port = Some(port);
        c
    }

    /// Disable auto-start
    pub fn without_auto_start(self) -> (c: Self)
        ensures
            c == (Self { auto_start: false, ..self }),
    {
        let mut c = self;
        c.auto_start = false;
        c
    }
}

/// Instructs the node to start a honeypot
pub struct StartHoneypotCmd {
    pub honeypot_id: String,
}

impl StartHoneypotCmd {
    pub fn new(honeypot_id: String) -> (c: Self)
        ensures
            c.honeypot_id == honeypot_id,
    {
        Self { honeypot_id }
    }
}

/// Instructs the node to stop a honeypot
pub struct StopHoneypotCmd {
    pub honeypot_id: String,
}

impl StopHoneypotCmd {
    pub fn new(honeypot_id: String) -> (c: Self)
        ensures
            c.honeypot_id == honeypot_id,
    {
        Self { honeypot_id }
    }
}

} // verus!
