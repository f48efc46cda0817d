use honeybee::cli::{describe_response_text, display_success, CliAction, HoneybeeCliClient, ResponseLine, ShownData};
use honeybee::message::backend::backend_to_manager::{BackendCommand, BackendToManagerMessage};
use honeybee::message::node::manager_to_node::NodeCommandType;

fn parse(line: &str) -> CliAction {
    HoneybeeCliClient::parse_line(line)
}

#[test]
fn client_address() {
    assert_eq!(HoneybeeCliClient::new("127.0.0.1:9002".to_string()).server_address, "127.0.0.1:9002");
}

#[test]
fn blank_exit_help_unknown() {
    assert!(matches!(parse("   "), CliAction::Skip));
    assert!(matches!(parse(""), CliAction::Skip));
    assert!(matches!(parse(" exit "), CliAction::Exit));
    assert!(matches!(parse("quit now"), CliAction::Exit));
    assert!(matches!(parse("help"), CliAction::Help));
    assert!(matches!(parse("?"), CliAction::Help));
    assert!(matches!(parse("frobnicate 1"), CliAction::Unknown));
    assert!(matches!(parse("LIST"), CliAction::Unknown));
}

#[test]
fn list_and_installed_pots() {
    assert!(matches!(parse("list"), CliAction::Send(BackendCommand::GetNodes)));
    assert!(matches!(
        parse("GetInstalledPots 8108114413124017714"),
        CliAction::Send(BackendCommand::NodeCommand { node_id: 8108114413124017714, command: NodeCommandType::GetInstalledPots(_) })
    ));
}

#[test]
fn install_pot() {
    match parse("InstallPot 12 cowrie-01 cowrie") {
        CliAction::Send(BackendCommand::NodeCommand { node_id, command: NodeCommandType::InstallPot(p) }) => {
            assert_eq!(node_id, 12);
            assert_eq!(p.pot_id, "cowrie-01");
            assert_eq!(p.honeypot_type, "cowrie");
            assert!(p.auto_start && p.git_url.is_none() && p.git_branch.is_none() && p.config.is_none());
        }
        _ => panic!("expected an install command"),
    }
    match parse("InstallPot 12 cowrie-01") {
        CliAction::Usage { usage, example } => {
            assert_eq!(usage, "Usage: InstallPot <node_id> <pot_id> <honeypot_type>");
            assert_eq!(example, "Example: InstallPot 8108114413124017714 cowrie-01 cowrie");
        }
        _ => panic!("expected the usage"),
    }
    assert!(matches!(parse("InstallPot x cowrie-01 cowrie"), CliAction::InvalidNodeId));
}

#[test]
fn pot_commands() {
    let expect = |line: &str| match parse(line) {
        CliAction::Send(BackendCommand::NodeCommand { node_id, command }) => (node_id, command),
        _ => panic!("expected a node command"),
    };
    assert!(matches!(expect("DeployPot 5 p1"), (5, NodeCommandType::DeployPot(p)) if p == "p1"));
    assert!(matches!(expect("StopPot 5 p1"), (5, NodeCommandType::StopPot(p)) if p == "p1"));
    assert!(matches!(expect("RestartPot +5 p1"), (5, NodeCommandType::RestartPot(p)) if p == "p1"));
    assert!(matches!(expect("GetPotStatus 5 p1 extra"), (5, NodeCommandType::GetPotStatus(p)) if p == "p1"));
    match parse("StopPot 5") {
        CliAction::Usage { usage, example } => {
            assert_eq!(usage, "Usage: StopPot <node_id> <pot_id>");
            assert_eq!(example, "Example: StopPot 8108114413124017714 cowrie-01");
        }
        _ => panic!("expected the usage"),
    }
    assert!(matches!(parse("DeployPot -5 p1"), CliAction::InvalidNodeId));
    assert!(matches!(parse("DeployPot 18446744073709551616 p1"), CliAction::InvalidNodeId));
}

#[test]
fn registration_and_envelopes() {
    match HoneybeeCliClient::registration_message() {
        BackendToManagerMessage::BackendRegistration(r) => assert_eq!(r.backend_name, "Honeybee CLI Client"),
        _ => panic!("expected a registration"),
    }
    let e = HoneybeeCliClient::command_envelope(BackendCommand::GetNodes);
    assert_eq!(e.version, 2);
    assert!(matches!(e.message, BackendToManagerMessage::BackendCommand(BackendCommand::GetNodes)));
    let e = HoneybeeCliClient::envelope(BackendToManagerMessage::BackendDrop);
    assert!(matches!(e.message, BackendToManagerMessage::BackendDrop));
}

#[test]
fn response_texts() {
    assert!(matches!(describe_response_text(r#"Alarm { description: "ssh brute force" }"#), ResponseLine::Alarm(t) if t == "ssh brute force"));
    assert!(matches!(describe_response_text(r#"Error { message: "disk full" }"#), ResponseLine::Warning(t) if t == "disk full"));
    assert!(matches!(describe_response_text("Started"), ResponseLine::Plain(t) if t == "Started"));
    assert!(matches!(describe_response_text("Alarm { description: none }"), ResponseLine::Nothing));
    assert!(matches!(describe_response_text(r#"Error { message: "open"#), ResponseLine::Nothing));
}

#[test]
fn success_display_lines() {
    let lines = display_success(
        Some("Command sent to node 7".to_string()),
        Some(ShownData::Response {
            text: "Alarm { description: \"disk full\" }".to_string(),
            details: Some("{\n  \"node\": 7\n}".to_string()),
        }),
    );
    assert_eq!(lines, vec![
        "   Command sent to node 7".to_string(),
        "   \u{1f4e2} disk full".to_string(),
        "   Details: {\n  \"node\": 7\n}".to_string(),
    ]);
    let lines = display_success(None, Some(ShownData::Response { text: "Error { message: \"boom\" }".to_string(), details: None }));
    assert_eq!(lines, vec!["   \u{26a0}\u{fe0f}  boom".to_string()]);
    let lines = display_success(None, Some(ShownData::Response { text: "pong".to_string(), details: None }));
    assert_eq!(lines, vec!["   Response: pong".to_string()]);
    let lines = display_success(Some("ok".to_string()), Some(ShownData::Raw("{\n  \"count\": 2\n}".to_string())));
    assert_eq!(lines, vec!["   ok".to_string(), "   {\n  \"count\": 2\n}".to_string()]);
    assert!(display_success(None, Some(ShownData::Response { text: "Alarm { description: none".to_string(), details: None })).is_empty());
}
