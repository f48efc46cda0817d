use honeybee::message::common::{MessageEnvelope, NodeStatus, NodeType, PROTOCOL_VERSION};
use honeybee::message::node::manager_to_node::{ManagerToNodeMessage, RegistrationAck};
use honeybee::message::node_to_manager::{NodeRegistration, NodeStatusUpdate, NodeToManagerMessage};
use honeybee::node_manager::manager::{is_current_version, send_failure_text, NodeLoopStep, NodeManager, NodeReadStep};
use honeybee::node_manager::node::{Node, Received};

fn connected(id: u64, name: &str) -> Node {
    let mut n = Node::new(id, name.to_string());
    n.set_stream();
    n
}

fn registration(id: u64, name: &str) -> MessageEnvelope<NodeToManagerMessage> {
    MessageEnvelope::new(
        PROTOCOL_VERSION,
        NodeToManagerMessage::NodeRegistration(NodeRegistration {
            node_id: id,
            node_name: name.to_string(),
            address: "10.0.0.1".to_string(),
            port: 8080,
            node_type: NodeType::Agent,
        }),
    )
}

#[test]
fn register_then_get_finds_the_node() {
    let mut m = NodeManager::new();
    m.register(connected(1, "alpha"));
    m.register(connected(2, "beta"));
    let n = m.get_node(1).unwrap();
    assert_eq!(n.name, "alpha");
    assert_eq!(n.status, NodeStatus::Running);
    assert!(m.get_node(3).is_none());
    assert_eq!(m.node_count(), 2);
    let mut ids = m.get_nodes();
    ids.sort();
    assert_eq!(ids, vec![1, 2]);
}

#[test]
fn register_same_id_replaces() {
    let mut m = NodeManager::new();
    m.register(connected(1, "alpha"));
    m.register(connected(1, "gamma"));
    assert_eq!(m.node_count(), 1);
    assert_eq!(m.get_node(1).unwrap().name, "gamma");
}

#[test]
fn remove_disconnects_and_forgets() {
    let mut m = NodeManager::new();
    m.register(connected(1, "alpha"));
    m.track_task(1);
    assert_eq!(m.active_connections(), 1);
    let removed = m.remove_node(1).unwrap();
    assert_eq!(removed.status, NodeStatus::Stopped);
    assert!(!removed.writer_attached);
    assert!(m.get_node(1).is_none());
    assert_eq!(m.active_connections(), 0);
    assert!(m.remove_node(1).is_none());
}

#[test]
fn nodes_by_status() {
    let mut m = NodeManager::new();
    m.register(connected(1, "a"));
    let mut b = connected(2, "b");
    b.status = NodeStatus::Failed;
    m.register(b);
    m.register(connected(3, "c"));
    let mut running: Vec<u64> = m.get_nodes_by_status(NodeStatus::Running).iter().map(|n| n.id).collect();
    running.sort();
    assert_eq!(running, vec![1, 3]);
    assert_eq!(m.get_nodes_by_status(NodeStatus::Failed).len(), 1);
    assert!(m.get_nodes_by_status(NodeStatus::Deploying).is_empty());
}

#[test]
fn status_update_is_tracked() {
    let mut m = NodeManager::new();
    m.register(connected(4, "d"));
    let step = m.handle_node_message(4, NodeToManagerMessage::NodeStatusUpdate(NodeStatusUpdate { node_id: 4, status: NodeStatus::Deploying }));
    assert!(matches!(step, NodeLoopStep::Continue));
    assert_eq!(m.get_node(4).unwrap().status, NodeStatus::Deploying);
    // an update that names another node leaves this one as it is
    m.handle_node_message(4, NodeToManagerMessage::NodeStatusUpdate(NodeStatusUpdate { node_id: 5, status: NodeStatus::Failed }));
    assert_eq!(m.get_node(4).unwrap().status, NodeStatus::Deploying);
    assert!(matches!(m.handle_node_message(4, NodeToManagerMessage::NodeDrop), NodeLoopStep::Disconnect));
    assert!(matches!(m.handle_node_message(9, NodeToManagerMessage::NodeDrop), NodeLoopStep::Disconnect));
    assert!(matches!(
        m.handle_node_message(9, NodeToManagerMessage::NodeStatusUpdate(NodeStatusUpdate { node_id: 9, status: NodeStatus::Failed })),
        NodeLoopStep::Stop
    ));
}

#[test]
fn accept_registration_builds_connected_node() {
    let n = NodeManager::accept_registration(registration(42, "hive")).unwrap();
    assert_eq!(n.id, 42);
    assert_eq!(n.name, "hive");
    assert_eq!(n.status, NodeStatus::Running);
    assert!(n.writer_attached && n.reader_attached);
    let e = NodeManager::accept_registration(MessageEnvelope::new(2, NodeToManagerMessage::NodeDrop)).err().unwrap();
    assert_eq!(e, "Received unexpected message type during registration");
    assert!(is_current_version(2));
    assert!(!is_current_version(1));
}

#[test]
fn registration_ack_and_missing_writer() {
    let mut n = connected(7, "x");
    let e = n.send_registration_ack().unwrap();
    assert_eq!(e.version, 2);
    match e.message {
        ManagerToNodeMessage::RegistrationAck(a) => {
            assert_eq!(a.node_id, 7);
            assert!(a.accepted);
            assert_eq!(a.message.as_deref(), Some("Registration successful"));
        }
        _ => panic!("expected an acknowledgement"),
    }
    let mut bare = Node::new(8, "y".to_string());
    assert_eq!(bare.send_registration_ack().err().unwrap(), "No writer available");
}

#[test]
fn send_command_to_node_errors() {
    let mut m = NodeManager::new();
    m.register(Node::new(1, "no-stream".to_string()));
    let msg = || ManagerToNodeMessage::RegistrationAck(RegistrationAck { node_id: 0, accepted: true, message: None });
    assert_eq!(m.send_command_to_node(2, msg()).err().unwrap(), "Node 2 not found");
    assert_eq!(m.send_command_to_node(1, msg()).err().unwrap(), "Failed to send command: No writer available");
    m.register(connected(3, "ok"));
    assert!(m.send_command_to_node(3, msg()).is_ok());
    assert_eq!(send_failure_text("broken pipe"), "Failed to send command: broken pipe");
}

#[test]
fn broadcast_splits_by_writer() {
    let mut m = NodeManager::new();
    m.register(connected(1, "a"));
    m.register(Node::new(2, "b".to_string()));
    m.register(connected(3, "c"));
    let b = m.broadcast_command(ManagerToNodeMessage::RegistrationAck(RegistrationAck { node_id: 0, accepted: true, message: None }));
    let mut r = b.recipients.clone();
    r.sort();
    assert_eq!(r, vec![1, 3]);
    assert_eq!(b.unreachable, vec![2]);
    assert_eq!(b.envelope.version, 2);
}

#[test]
fn reading_messages() {
    let mut m = NodeManager::new();
    m.register(connected(1, "a"));
    m.register(Node::new(2, "b".to_string()));
    assert!(matches!(m.next_message(9, Received::Closed), NodeReadStep::NotRegistered));
    assert!(matches!(m.next_message(1, Received::Closed), NodeReadStep::ConnectionClosed));
    assert!(matches!(m.next_message(1, Received::Failed("Connection closed by peer".into())), NodeReadStep::ConnectionClosed));
    assert!(matches!(m.next_message(1, Received::Failed("bad json".into())), NodeReadStep::ReadFailed(t) if t == "bad json"));
    assert!(matches!(m.next_message(2, Received::Closed), NodeReadStep::ReadFailed(t) if t == "No reader available"));
    assert!(matches!(m.next_message(1, Received::Message(MessageEnvelope::new(2, NodeToManagerMessage::NodeDrop))), NodeReadStep::Message(_)));
}

#[test]
fn node_read_message_errors() {
    let n = connected(1, "a");
    assert_eq!(n.read_message(Received::Closed).err().unwrap(), "Connection closed");
    let bare = Node::new(2, "b".to_string());
    assert_eq!(bare.read_message(Received::Closed).err().unwrap(), "No reader available");
}

#[test]
fn disconnect_twice() {
    let mut n = connected(1, "a");
    assert!(n.disconnect());
    assert!(!n.disconnect());
    assert_eq!(n.status, NodeStatus::Stopped);
}

#[test]
fn node_from_registration() {
    let reg = NodeRegistration { node_id: 3, node_name: "n".into(), address: "a".into(), port: 1, node_type: NodeType::Full };
    let n = Node::from(reg);
    assert_eq!(n.id, 3);
    assert!(!n.writer_attached);
}
