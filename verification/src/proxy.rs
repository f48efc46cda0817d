//! The WebSocket proxy that bridges WebSocket clients to the manager's TCP
//! port for backends: one line of the backend is one text frame of the
//! client, and one text frame of the client is one line to the backend.
use vstd::prelude::*;

use crate::json::{is_json_text, json_value_text};
use crate::text::{concat, trim, trimmed};

verus! {

/// WebSocket proxy server that bridges WebSocket clients to the TCP backend manager
pub struct WebSocketProxy {
    pub backend_address: String,
}

impl WebSocketProxy {
    /// Create a new WebSocket proxy
    pub fn new(backend_address: String) -> (p: Self)
        ensures
            p.backend_address == backend_address,
    {
        Self { backend_address }
    }
}

/// What reading one line of the backend's stream gave.
pub enum BackendRead {
    /// The backend closed its stream.
    Closed,
    Line(String),
    /// Reading failed with this error text.
    Failed(String),
}

/// What the proxy does with it.
pub enum BackendLineAction {
    /// Send this text frame to the client.
    Forward(String),
    /// An empty line: nothing is sent.
    Skip,
    /// Send a close frame to the client and stop.
    CloseClient,
    /// Stop.
    Stop,
}

/// A frame received from the WebSocket client.
pub enum ClientFrame {
    Text(String),
    /// A binary frame of this many bytes.
    Binary(usize),
    Ping,
    Pong,
    Close,
    /// Receiving failed with this error text.
    Failed(String),
}

/// What the proxy does with it.
pub enum ClientFrameAction {
    /// Write this text to the backend.
    Forward(String),
    /// Nothing is sent.
    Ignore,
    /// Stop.
    Stop,
}

/// What the proxy does with a line read from the backend.
pub fn backend_line_action(read: BackendRead) -> (a: BackendLineAction)
    ensures
        match read {
            BackendRead::Closed => a is CloseClient,
            BackendRead::Failed(_) => a is Stop,
            BackendRead::Line(l) => if trimmed(l@).len() == 0 {
                a is Skip
            } else {
                a matches BackendLineAction::Forward(t) && t@ == trimmed(l@)
            },
        },
{
    match read {
        BackendRead::Closed => BackendLineAction::CloseClient,
        BackendRead::Failed(_) => BackendLineAction::Stop,
        BackendRead::Line(l) => {
            let t = trim(l.as_str());
            if t.as_str().is_empty() {
                BackendLineAction::Skip
            } else {
                BackendLineAction::Forward(t)
            }
        },
    }
}

/// What is written to the backend for a text frame, given whether the text
/// is JSON: the text and a newline, or nothing.
pub fn forward_text(text: &str, is_json: bool) -> (r: Option<String>)
    ensures
        is_json ==> (r matches Some(t) && t@ == text@ + "\n"@),
        !is_json ==> r is None,
{
    if is_json {
        Some(concat(text, "\n"))
    } else {
        None
    }
}

/// What the proxy does with a frame of the client: a text frame that is JSON
/// goes to the backend with a newline; other text, binary, ping and pong
/// frames are ignored; a close frame or an error stops the proxy.
pub fn client_frame_action(frame: ClientFrame) -> (a: ClientFrameAction)
    ensures
        match frame {
            ClientFrame::Text(t) => if is_json_text(t@) {
                a matches ClientFrameAction::Forward(f) && f@ == t@ + "\n"@
            } else {
                a is Ignore
            },
            ClientFrame::Binary(_) | ClientFrame::Ping | ClientFrame::Pong => a is Ignore,
            ClientFrame::Close | ClientFrame::Failed(_) => a is Stop,
        },
{
    match frame {
        ClientFrame::Text(t) => {
            let valid = json_value_text(t.as_str()).is_ok();
            match forward_text(t.as_str(), valid) {
                Some(f) => ClientFrameAction::Forward(f),
                None => ClientFrameAction::Ignore,
            }
        },
        ClientFrame::Binary(_) => ClientFrameAction::Ignore,
        ClientFrame::Ping => ClientFrameAction::Ignore,
        ClientFrame::Pong => ClientFrameAction::Ignore,
        ClientFrame::Close => ClientFrameAction::Stop,
        ClientFrame::Failed(_) => ClientFrameAction::Stop,
    }
}

} // verus!
