use honeybee::message::bidirectional::BidirectionalMessage;
use honeybee::message::common::{MessageEnvelope, NodeStatus, PROTOCOL_VERSION};
use honeybee::message::manager_to_node::{InstallHoneypotCmd, NodeCommand, StartHoneypotCmd, StopHoneypotCmd};
use honeybee::message::node::manager_to_node::{ManagerToNodeMessage, RegistrationAck};
use honeybee::message::node_to_manager::NodeToManagerMessage;
use honeybee::message::backend::backend_type::BackendType;

#[test]
fn node_command_builders() {
    let c = NodeCommand::status(7);
    assert_eq!(c.node_id, 7);
    assert_eq!(c.command, "status");
    assert_eq!(NodeCommand::stop(8).command, "stop");
    assert_eq!(NodeCommand::restart(9).command, "restart");
    let c = NodeCommand::custom(10, "reboot".to_string());
    assert_eq!(c.node_id, 10);
    assert_eq!(c.command, "reboot");
}

#[test]
fn cowrie_install_defaults_and_builders() {
    let c = InstallHoneypotCmd::cowrie("cowrie-01".to_string(), "https://example.org/cowrie.git".to_string());
    assert_eq!(c.honeypot_id, "cowrie-01");
    assert_eq!(c.honeypot_type, "cowrie");
    assert_eq!(c.git_url, "https://example.org/cowrie.git");
    assert_eq!(c.git_branch, None);
    assert!(c.config.is_none());
    assert_eq!(c.ssh_port, Some(2222));
    assert_eq!(c.telnet_port, Some(2223));
    assert!(c.auto_start);
    let c = c.with_branch("dev").with_ssh_port(22).with_telnet_port(23).without_auto_start();
    assert_eq!(c.git_branch.as_deref(), Some("dev"));
    assert_eq!(c.ssh_port, Some(22));
    assert_eq!(c.telnet_port, Some(23));
    assert!(!c.auto_start);
    assert_eq!(c.honeypot_type, "cowrie");
}

#[test]
fn start_and_stop_commands() {
    assert_eq!(StartHoneypotCmd::new("p".to_string()).honeypot_id, "p");
    assert_eq!(StopHoneypotCmd::new("q".to_string()).honeypot_id, "q");
}

#[test]
fn envelope_and_protocol_version() {
    let e = MessageEnvelope::new(PROTOCOL_VERSION, 5u8);
    assert_eq!(e.version, 2);
    assert_eq!(e.message, 5);
}

#[test]
fn status_names() {
    assert_eq!(NodeStatus::Deploying.name(), "Deploying");
    assert_eq!(NodeStatus::Running.name(), "Running");
    assert_eq!(NodeStatus::Stopped.name(), "Stopped");
    assert_eq!(NodeStatus::Failed.name(), "Failed");
    assert_eq!(NodeStatus::Unknown.name(), "Unknown");
}

#[test]
fn bidirectional_from_both_directions() {
    let b: BidirectionalMessage = NodeToManagerMessage::NodeDrop.into();
    assert!(matches!(b, BidirectionalMessage::NodeToManager(NodeToManagerMessage::NodeDrop)));
    let ack = ManagerToNodeMessage::RegistrationAck(RegistrationAck { node_id: 1, accepted: true, message: None });
    let b = BidirectionalMessage::from(ack);
    assert!(matches!(b, BidirectionalMessage::ManagerToNode(ManagerToNodeMessage::RegistrationAck(a)) if a.node_id == 1));
}

#[test]
fn backend_type_equality() {
    assert!(BackendType::Web.same_as(&BackendType::Web));
    assert!(!BackendType::Web.same_as(&BackendType::Cli));
    assert!(BackendType::Custom("x".into()).same_as(&BackendType::Custom("x".into())));
    assert!(!BackendType::Custom("x".into()).same_as(&BackendType::Custom("y".into())));
}
