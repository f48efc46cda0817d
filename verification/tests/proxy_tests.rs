use honeybee::proxy::{backend_line_action, client_frame_action, forward_text, BackendLineAction, BackendRead, ClientFrame, ClientFrameAction, WebSocketProxy};

#[test]
fn proxy_keeps_backend_address() {
    assert_eq!(WebSocketProxy::new("127.0.0.1:9002".to_string()).backend_address, "127.0.0.1:9002");
}

#[test]
fn backend_lines() {
    assert!(matches!(backend_line_action(BackendRead::Line("  {\"a\":1}\r\n".into())), BackendLineAction::Forward(t) if t == "{\"a\":1}"));
    assert!(matches!(backend_line_action(BackendRead::Line(" \n".into())), BackendLineAction::Skip));
    assert!(matches!(backend_line_action(BackendRead::Closed), BackendLineAction::CloseClient));
    assert!(matches!(backend_line_action(BackendRead::Failed("x".into())), BackendLineAction::Stop));
}

#[test]
fn client_frames() {
    assert!(matches!(client_frame_action(ClientFrame::Text("{\"x\": [1, 2]}".into())), ClientFrameAction::Forward(t) if t == "{\"x\": [1, 2]}\n"));
    assert!(matches!(client_frame_action(ClientFrame::Text("not json".into())), ClientFrameAction::Ignore));
    assert!(matches!(client_frame_action(ClientFrame::Text("\"just a string\"".into())), ClientFrameAction::Forward(_)));
    assert!(matches!(client_frame_action(ClientFrame::Binary(3)), ClientFrameAction::Ignore));
    assert!(matches!(client_frame_action(ClientFrame::Ping), ClientFrameAction::Ignore));
    assert!(matches!(client_frame_action(ClientFrame::Pong), ClientFrameAction::Ignore));
    assert!(matches!(client_frame_action(ClientFrame::Close), ClientFrameAction::Stop));
    assert!(matches!(client_frame_action(ClientFrame::Failed("e".into())), ClientFrameAction::Stop));
    assert_eq!(forward_text("{}", true), Some("{}\n".to_string()));
    assert_eq!(forward_text("{}", false), None);
}
