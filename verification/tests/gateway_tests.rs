use honeybee::backend_manager::manager::CommandOutcome;
use honeybee::config::Config;
use honeybee::gateway::{
    command_response, handle_request, invalid_message, ping_reply, potstore_contents, GatewayAction, GatewayOutcome, GatewayRequest,
    GatewaySession, LegacyOutcome, Param, SubscribeStep, Topic, WsOutgoing,
};
use honeybee::message::backend::backend_to_manager::{BackendCommand, BackendRegistration, BackendToManagerMessage};
use honeybee::message::backend::backend_type::BackendType;
use honeybee::message::backend::manager_to_backend::{BackendResponse, ManagerToBackendMessage, ResponseData};
use honeybee::message::common::{MessageEnvelope, NodeStatus};
use honeybee::message::node::manager_to_node::{NodeCommandType, Unit};
use honeybee::node_manager::manager::NodeManager;
use honeybee::node_manager::node::Node;

fn registry() -> NodeManager {
    let mut m = NodeManager::new();
    let mut n = Node::new(1, "a".to_string());
    n.set_stream();
    m.register(n);
    m
}

fn error_of(o: GatewayOutcome) -> String {
    match o {
        GatewayOutcome::Respond(WsOutgoing::Response { ok: false, error: Some(e), .. }) => e,
        _ => panic!("expected an error response"),
    }
}

fn data_of(o: GatewayOutcome) -> ResponseData {
    match o {
        GatewayOutcome::Respond(WsOutgoing::Response { ok: true, data: Some(d), .. }) => d,
        _ => panic!("expected a data response"),
    }
}

#[test]
fn action_names() {
    assert_eq!(GatewayAction::from_name("nodes.list"), GatewayAction::NodesList);
    assert_eq!(GatewayAction::from_name("nodes.get"), GatewayAction::NodesGet);
    assert_eq!(GatewayAction::from_name("nodes.count"), GatewayAction::NodesCount);
    assert_eq!(GatewayAction::from_name("nodes.status"), GatewayAction::NodesStatus);
    assert_eq!(GatewayAction::from_name("nodes.active_connections"), GatewayAction::NodesActiveConnections);
    assert_eq!(GatewayAction::from_name("node.command"), GatewayAction::NodeCommand);
    assert_eq!(GatewayAction::from_name("command"), GatewayAction::Command);
    assert_eq!(GatewayAction::from_name("config.get"), GatewayAction::ConfigGet);
    assert_eq!(GatewayAction::from_name("potstore.list"), GatewayAction::PotstoreList);
    assert_eq!(GatewayAction::from_name("nodes"), GatewayAction::Unknown);
}

#[test]
fn requests_about_nodes() {
    let mut m = registry();
    let c = Config::default();
    assert!(matches!(data_of(handle_request("r1".into(), GatewayRequest::NodesList, &mut m, &c)), ResponseData::NodeIds(v) if v == vec![1]));
    assert!(matches!(data_of(handle_request("r2".into(), GatewayRequest::NodesCount, &mut m, &c)), ResponseData::Count(1)));
    assert!(matches!(data_of(handle_request("r3".into(), GatewayRequest::NodesActiveConnections, &mut m, &c)), ResponseData::ActiveConnections(1)));
    assert!(matches!(data_of(handle_request("r4".into(), GatewayRequest::NodesGet { node_id: Some(1) }, &mut m, &c)), ResponseData::NodeEntry(n) if n.id == 1));
    assert_eq!(error_of(handle_request("r5".into(), GatewayRequest::NodesGet { node_id: Some(2) }, &mut m, &c)), "Node not found");
    assert_eq!(error_of(handle_request("r6".into(), GatewayRequest::NodesGet { node_id: None }, &mut m, &c)), "node_id is required");
    assert!(matches!(data_of(handle_request("r7".into(), GatewayRequest::NodesStatus { status: Param::Given(NodeStatus::Running) }, &mut m, &c)), ResponseData::Nodes(v) if v.len() == 1));
    assert_eq!(error_of(handle_request("r8".into(), GatewayRequest::NodesStatus { status: Param::Missing }, &mut m, &c)), "status is required");
    assert_eq!(error_of(handle_request("r9".into(), GatewayRequest::NodesStatus { status: Param::Invalid("x".into()) }, &mut m, &c)), "Invalid status");
}

#[test]
fn commands_through_the_gateway() {
    let mut m = registry();
    let c = Config::default();
    match handle_request("c1".into(), GatewayRequest::NodeCommand { command: Some((1, Ok(NodeCommandType::Restart(Unit)))) }, &mut m, &c) {
        GatewayOutcome::Dispatch { id, outcome: CommandOutcome::Deliver { node_id, .. } } => {
            assert_eq!(id, "c1");
            assert_eq!(node_id, 1);
        }
        _ => panic!("expected a delivery"),
    }
    assert_eq!(error_of(handle_request("c2".into(), GatewayRequest::NodeCommand { command: None }, &mut m, &c)), "params must include node_id and command");
    assert_eq!(error_of(handle_request("c3".into(), GatewayRequest::NodeCommand { command: Some((1, Err("bad".into()))) }, &mut m, &c)), "Invalid command: bad");
    assert_eq!(error_of(handle_request("c4".into(), GatewayRequest::Command { command: Param::Missing }, &mut m, &c)), "command is required");
    assert_eq!(error_of(handle_request("c5".into(), GatewayRequest::Command { command: Param::Invalid("bad".into()) }, &mut m, &c)), "Invalid command: bad");
    assert!(matches!(
        handle_request("c6".into(), GatewayRequest::Command { command: Param::Given(BackendCommand::GetNodeCount) }, &mut m, &c),
        GatewayOutcome::Dispatch { outcome: CommandOutcome::Reply(_), .. }
    ));
    match command_response("c7".into(), BackendResponse::Failure("x".into())) {
        WsOutgoing::Response { id, ok, data: Some(ResponseData::Response(r)), error: None } => {
            assert_eq!(id, "c7");
            assert!(ok);
            assert!(matches!(*r, BackendResponse::Failure(t) if t == "x"));
        }
        _ => panic!("expected a wrapped response"),
    }
}

#[test]
fn config_potstore_unknown() {
    let mut m = registry();
    let c = Config::default();
    assert!(matches!(data_of(handle_request("k1".into(), GatewayRequest::ConfigGet, &mut m, &c)), ResponseData::Config(s) if s.port == 9001));
    assert!(matches!(data_of(handle_request("k2".into(), GatewayRequest::PotstoreList { contents: Ok("[ {\"id\": \"cowrie\"} ]".into()) }, &mut m, &c)), ResponseData::Json(j) if j == r#"[{"id":"cowrie"}]"#));
    assert!(error_of(handle_request("k5".into(), GatewayRequest::PotstoreList { contents: Ok("not json".into()) }, &mut m, &c)).len() > 0);
    assert_eq!(error_of(handle_request("k3".into(), GatewayRequest::PotstoreList { contents: Err("missing".into()) }, &mut m, &c)), "missing");
    assert_eq!(error_of(handle_request("k4".into(), GatewayRequest::Unknown, &mut m, &c)), "Unknown action");
    match invalid_message("eof") {
        WsOutgoing::Response { id, ok: false, error: Some(e), .. } => {
            assert_eq!(id, "unknown");
            assert_eq!(e, "Invalid message: eof");
        }
        _ => panic!("expected an error response"),
    }
}

#[test]
fn subscriptions() {
    let mut s = GatewaySession::new();
    assert!(matches!(s.subscribe("1".into(), "nodes".into()), SubscribeStep::Start { topic: Topic::Nodes, .. }));
    assert!(matches!(s.subscribe("2".into(), "nodes".into()), SubscribeStep::AlreadySubscribed(WsOutgoing::Subscribed { .. })));
    assert!(matches!(s.subscribe("3".into(), "weather".into()), SubscribeStep::Refused(WsOutgoing::Response { error: Some(e), .. }) if e == "Unknown topic"));
    let (reply, stopped) = s.unsubscribe("4".into(), "nodes".into());
    assert!(matches!(reply, WsOutgoing::Unsubscribed { id, topic } if id == "4" && topic == "nodes"));
    assert_eq!(stopped, Some(Topic::Nodes));
    let (_, stopped) = s.unsubscribe("5".into(), "nodes".into());
    assert_eq!(stopped, None);
    assert!(matches!(s.subscribe("6".into(), "pot_logs".into()), SubscribeStep::Start { topic: Topic::PotLogs, .. }));
}

#[test]
fn legacy_envelopes() {
    let mut m = registry();
    let mut s = GatewaySession::new();
    assert_eq!(s.backend_id(), None);
    let reg = MessageEnvelope::new(2, BackendToManagerMessage::BackendRegistration(BackendRegistration {
        backend_name: "dash".into(),
        backend_type: BackendType::Web,
    }));
    match s.handle_legacy_backend_message(reg, &mut m) {
        LegacyOutcome::Send(e) => match e.message {
            ManagerToBackendMessage::ManagerRegistrationAck(a) => {
                assert_eq!(Some(a.backend_id), s.backend_id());
                assert_eq!(a.message.as_deref(), Some("Registration successful: dash"));
            }
            _ => panic!("expected an acknowledgement"),
        },
        _ => panic!("expected an envelope"),
    }
    assert!(matches!(
        s.handle_legacy_backend_message(MessageEnvelope::new(2, BackendToManagerMessage::BackendCommand(BackendCommand::GetNodes)), &mut m),
        LegacyOutcome::Dispatch(CommandOutcome::Reply(_))
    ));
    assert!(matches!(s.handle_legacy_backend_message(MessageEnvelope::new(2, BackendToManagerMessage::BackendDrop), &mut m), LegacyOutcome::Silent));
    assert!(matches!(s.registered(5, "x"), LegacyOutcome::Send(_)));
    assert_eq!(s.backend_id(), Some(5));
}

#[test]
fn ping_is_answered_with_its_id() {
    assert!(matches!(ping_reply("p7".to_string()), WsOutgoing::Pong { id } if id == "p7"));
}

#[test]
fn potstore_contents_are_compacted_json() {
    assert_eq!(potstore_contents(Ok("{ \"pots\" : [ 1, 2 ] }".to_string())), Ok(r#"{"pots":[1,2]}"#.to_string()));
    assert!(potstore_contents(Ok("{ \"pots\": ".to_string())).is_err());
    assert_eq!(potstore_contents(Err("No such file".to_string())), Err("No such file".to_string()));
}
