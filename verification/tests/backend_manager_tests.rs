use honeybee::backend_manager::backend::{Backend, BackendError};
use honeybee::backend_manager::framing::{ByteRead, FrameStep, JsonFramer};
use honeybee::backend_manager::manager::{BackendManager, CommandOutcome, ConnectionStep};
use honeybee::message::backend::backend_to_manager::{BackendCommand, BackendRegistration, BackendToManagerMessage};
use honeybee::message::backend::backend_type::BackendType;
use honeybee::message::backend::manager_to_backend::{BackendResponse, ManagerToBackendMessage, ResponseData};
use honeybee::message::common::{MessageEnvelope, NodeStatus};
use honeybee::message::node::manager_to_node::{ManagerToNodeMessage, NodeCommandType, Unit};
use honeybee::node_manager::manager::NodeManager;
use honeybee::node_manager::node::Node;

fn connected(id: u64, name: &str) -> Node {
    let mut n = Node::new(id, name.to_string());
    n.set_stream();
    n
}

fn frame(bytes: &[u8]) -> (usize, Option<Result<String, String>>) {
    let mut f = JsonFramer::new();
    for (i, b) in bytes.iter().enumerate() {
        match f.feed(ByteRead::Byte(*b)) {
            FrameStep::NeedMore => {}
            FrameStep::Complete(r) => return (i + 1, Some(r)),
            FrameStep::Failed(e) => return (i + 1, Some(Err(e))),
        }
    }
    (bytes.len(), None)
}

fn reply(o: CommandOutcome) -> BackendResponse {
    match o {
        CommandOutcome::Reply(r) => r,
        _ => panic!("expected a plain reply"),
    }
}

fn success_text(r: &BackendResponse) -> String {
    match r {
        BackendResponse::Success { message: Some(t), .. } => t.clone(),
        _ => panic!("expected a success"),
    }
}

fn failure_text(r: &BackendResponse) -> String {
    match r {
        BackendResponse::Failure(t) => t.clone(),
        _ => panic!("expected a failure"),
    }
}

#[test]
fn framing_stops_at_closing_brace() {
    let input = br#"  {"a":{"b":"}"}} trailing"#;
    let (n, r) = frame(input);
    assert_eq!(&input[..n], br#"  {"a":{"b":"}"}}"#);
    assert_eq!(r.unwrap().unwrap(), r#"  {"a":{"b":"}"}}"#);
}

#[test]
fn framing_handles_escaped_quotes() {
    let input = br#"{"k":"a\"}"}"#;
    let (n, r) = frame(input);
    assert_eq!(n, input.len());
    assert!(r.unwrap().is_ok());
}

#[test]
fn framing_incomplete_then_eof() {
    let mut f = JsonFramer::new();
    for b in br#"{"a":1"# {
        assert!(matches!(f.feed(ByteRead::Byte(*b)), FrameStep::NeedMore));
    }
    match f.feed(ByteRead::Eof) {
        FrameStep::Failed(e) => assert_eq!(e, "EOF while reading JSON message"),
        _ => panic!("expected the end of stream error"),
    }
    let mut g = JsonFramer::new();
    match g.feed(ByteRead::Failed("reset".to_string())) {
        FrameStep::Failed(e) => assert_eq!(e, "reset"),
        _ => panic!("expected the read error"),
    }
}

#[test]
fn framing_rejects_invalid_utf8() {
    let (_, r) = frame(&[b'{', 0xff, b'}']);
    assert!(r.unwrap().is_err());
}

#[test]
fn registration_of_backends() {
    let reg = MessageEnvelope::new(2, BackendToManagerMessage::BackendRegistration(BackendRegistration {
        backend_name: "web".to_string(),
        backend_type: BackendType::Web,
    }));
    assert!(BackendManager::handle_registration(reg).is_ok());
    let old = MessageEnvelope::new(1, BackendToManagerMessage::BackendDrop);
    assert_eq!(BackendManager::handle_registration(old).err().unwrap(), "Protocol version mismatch: got 1, expected 2");
    let wrong = MessageEnvelope::new(2, BackendToManagerMessage::BackendDrop);
    assert_eq!(BackendManager::handle_registration(wrong).err().unwrap(), "Expected BackendRegistration message");
    let again = MessageEnvelope::new(2, BackendToManagerMessage::BackendRegistration(BackendRegistration {
        backend_name: "web".to_string(),
        backend_type: BackendType::Web,
    }));
    assert_eq!(BackendManager::registration_outcome(again, 77), Ok(77));
    assert_eq!(BackendManager::registration_parse_error("eof"), "Failed to parse registration: eof");
}

#[test]
fn registration_ack_carries_the_id() {
    let e = BackendManager::registration_ack(99);
    assert_eq!(e.version, 2);
    match e.message {
        ManagerToBackendMessage::BackendResponse(BackendResponse::Success { message, data }) => {
            assert_eq!(message.as_deref(), Some("Registration successful"));
            assert!(matches!(data, Some(ResponseData::BackendId(99))));
        }
        _ => panic!("expected a success response"),
    }
}

#[test]
fn commands_against_the_registry() {
    let mut m = NodeManager::new();
    m.register(connected(1, "a"));
    m.register(Node::new(2, "b".to_string()));

    let r = reply(BackendManager::process_backend_command_static(0, BackendCommand::GetNodes, &mut m));
    assert_eq!(success_text(&r), "Retrieved 2 nodes");

    let r = reply(BackendManager::process_backend_command_static(0, BackendCommand::GetNodeCount, &mut m));
    assert_eq!(success_text(&r), "Total nodes: 2");
    assert!(matches!(r, BackendResponse::Success { data: Some(ResponseData::Count(2)), .. }));

    let r = reply(BackendManager::process_backend_command_static(0, BackendCommand::GetNode { node_id: 1 }, &mut m));
    assert_eq!(success_text(&r), "Node 1 retrieved");
    let r = reply(BackendManager::process_backend_command_static(0, BackendCommand::GetNode { node_id: 5 }, &mut m));
    assert_eq!(failure_text(&r), "Node 5 not found");

    let r = reply(BackendManager::process_backend_command_static(
        0,
        BackendCommand::GetNodesByStatus { status: NodeStatus::Running },
        &mut m,
    ));
    assert_eq!(success_text(&r), "Retrieved 2 nodes with status Running");

    let r = reply(BackendManager::process_backend_command_static(0, BackendCommand::GetActiveConnections, &mut m));
    assert_eq!(success_text(&r), "Active connections: 0");
}

#[test]
fn node_command_delivery() {
    let mut m = NodeManager::new();
    m.register(connected(1, "a"));
    m.register(Node::new(2, "b".to_string()));
    let cmd = |id| BackendCommand::NodeCommand { node_id: id, command: NodeCommandType::Restart(Unit) };
    match BackendManager::process_backend_command_static(0, cmd(1), &mut m) {
        CommandOutcome::Deliver { node_id, envelope } => {
            assert_eq!(node_id, 1);
            assert!(matches!(envelope.message, ManagerToNodeMessage::NodeCommand(c) if c.node_id == 1));
        }
        _ => panic!("expected a delivery"),
    }
    let r = reply(BackendManager::process_backend_command_static(0, cmd(2), &mut m));
    assert_eq!(failure_text(&r), "Failed to send command to node 2: Failed to send command: No writer available");
    let r = reply(BackendManager::process_backend_command_static(0, cmd(3), &mut m));
    assert_eq!(failure_text(&r), "Failed to send command to node 3: Node 3 not found");
    assert_eq!(success_text(&BackendManager::delivery_response(1, Ok(()))), "Command sent to node 1");
    assert_eq!(
        failure_text(&BackendManager::delivery_response(1, Err("pipe".to_string()))),
        "Failed to send command to node 1: Failed to send command: pipe"
    );
}

#[test]
fn broadcast_and_remove() {
    let mut m = NodeManager::new();
    m.register(connected(1, "a"));
    match BackendManager::process_backend_command_static(0, BackendCommand::BroadcastCommand { command: NodeCommandType::GetInstalledPots(Unit) }, &mut m) {
        CommandOutcome::Broadcast { broadcast, response } => {
            assert_eq!(broadcast.recipients, vec![1]);
            assert_eq!(success_text(&response), "Command broadcast to all nodes");
            assert!(matches!(broadcast.envelope.message, ManagerToNodeMessage::NodeCommand(c) if c.node_id == 0));
        }
        _ => panic!("expected a broadcast"),
    }
    match BackendManager::process_backend_command_static(0, BackendCommand::RemoveNode { node_id: 1 }, &mut m) {
        CommandOutcome::ReplyAndClose { response, node_id } => {
            assert_eq!(node_id, 1);
            assert_eq!(success_text(&response), "Node 1 removed");
        }
        _ => panic!("expected a removal"),
    }
    // a removed node is not found any more
    let r = reply(BackendManager::process_backend_command_static(0, BackendCommand::RemoveNode { node_id: 1 }, &mut m));
    assert_eq!(failure_text(&r), "Node 1 not found");
    let r = reply(BackendManager::process_backend_command_static(0, BackendCommand::GetNode { node_id: 1 }, &mut m));
    assert_eq!(failure_text(&r), "Node 1 not found");
}

#[test]
fn other_backend_messages() {
    let mut m = NodeManager::new();
    let r = reply(BackendManager::handle_backend_message_static(BackendToManagerMessage::BackendDrop, 3, &mut m));
    assert_eq!(success_text(&r), "Disconnect acknowledged");
    let reg = BackendToManagerMessage::BackendRegistration(BackendRegistration { backend_name: "x".into(), backend_type: BackendType::Api });
    let r = reply(BackendManager::handle_backend_message_static(reg, 3, &mut m));
    assert_eq!(failure_text(&r), "Unexpected message type after registration");
    let r = reply(BackendManager::handle_backend_message_static(BackendToManagerMessage::BackendCommand(BackendCommand::GetNodeCount), 3, &mut m));
    assert_eq!(success_text(&r), "Total nodes: 0");
}

#[test]
fn backend_registry() {
    let mut bm = BackendManager::new();
    bm.register_backend(Backend::new_with_writer(5, BackendType::Web, 1000));
    bm.register_backend(Backend::new_with_writer(6, BackendType::Cli, 1001));
    bm.register_backend(Backend::new_with_writer(7, BackendType::Custom("x".into()), 1002));
    assert_eq!(bm.backend_count(), 3);
    assert_eq!(bm.get_backend(6).unwrap().created_at, 1001);
    assert_eq!(bm.get_backends_by_type(&BackendType::Web).len(), 1);
    assert_eq!(bm.get_backends_by_type(&BackendType::Custom("x".into()))[0].id, 7);
    assert!(bm.get_backends_by_type(&BackendType::Monitoring).is_empty());
    assert_eq!(bm.active_connections(), 0);
    assert_eq!(bm.remove_backend(5).unwrap().id, 5);
    assert!(bm.get_backend(5).is_none());
    bm.connection_closed(6);
    assert_eq!(bm.backend_count(), 1);
    assert_eq!(bm.get_backends().len(), 1);
}

#[test]
fn backend_sending() {
    let mut b = Backend::new_with_writer(1, BackendType::Web, 0);
    assert!(b.is_connected());
    let e = b.send_error("boom".to_string()).unwrap();
    assert!(matches!(e.message, ManagerToBackendMessage::BackendResponse(BackendResponse::Failure(t)) if t == "boom"));
    assert!(b.send_success(Some("ok".into()), None).is_ok());
    assert!(b.disconnect());
    assert!(!b.is_connected());
    assert_eq!(b.send_success(None, None).err().unwrap(), "No writer available");
}

#[test]
fn backend_error_texts() {
    assert_eq!(BackendError::ConnectionFailed("x".into()).to_string(), "Connection failed: x");
    assert_eq!(BackendError::CommandFailed("x".into()).to_string(), "Command failed: x");
    assert_eq!(BackendError::InvalidConfiguration("x".into()).to_string(), "Invalid configuration: x");
    assert_eq!(BackendError::NotFound("x".into()).to_string(), "Backend not found: x");
    assert_eq!(BackendError::SendFailed("x".into()).to_string(), "Send failed: x");
}

#[test]
fn connection_steps() {
    let drop = MessageEnvelope::new(2, BackendToManagerMessage::BackendDrop);
    assert!(matches!(
        BackendManager::connection_step(Ok(Ok(drop))),
        ConnectionStep::Handle(BackendToManagerMessage::BackendDrop)
    ));
    assert!(matches!(
        BackendManager::connection_step(Ok(Err("expected value".to_string()))),
        ConnectionStep::Skip(e) if e == "expected value"
    ));
    assert!(matches!(
        BackendManager::connection_step(Err("EOF while reading JSON message".to_string())),
        ConnectionStep::Disconnected
    ));
    assert!(matches!(
        BackendManager::connection_step(Err("connection reset".to_string())),
        ConnectionStep::Stop(e) if e == "connection reset"
    ));
    assert!(BackendManager::keeps_reading(&Ok(())));
    assert!(!BackendManager::keeps_reading(&Err("broken pipe".to_string())));
}

#[test]
fn framing_nested_objects_with_escapes() {
    let input = br#"x{"a":{"b":{"c":"\"}{\\"}},"d":"{"}{"next":1}"#;
    let (n, r) = frame(input);
    assert_eq!(&input[..n], br#"x{"a":{"b":{"c":"\"}{\\"}},"d":"{"}"#);
    assert_eq!(r.unwrap().unwrap(), r#"x{"a":{"b":{"c":"\"}{\\"}},"d":"{"}"#);
}
