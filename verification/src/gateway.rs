//! The WebSocket gateway: JSON requests, subscriptions and the legacy
//! backend envelopes that browser clients send, answered against the
//! registry of nodes.
use vstd::prelude::*;

use crate::backend_manager::manager::{command_answered, random_id, BackendManager, CommandOutcome};
use crate::config::{Config, SanitizedConfig};
use crate::json::{is_json_text, json_compact, json_value_text};
use crate::message::backend::backend_to_manager::{BackendCommand, BackendToManagerMessage};
use crate::message::backend::manager_to_backend::{
    BackendRegistrationAck, BackendResponse, ManagerToBackendMessage, ResponseData,
};
use crate::message::common::{MessageEnvelope, NodeStatus, PROTOCOL_VERSION};
use crate::message::node::manager_to_node::NodeCommandType;
use crate::node_manager::manager::NodeManager;
use crate::text::{concat, same_text};

verus! {

/// A message a WebSocket client sends (its `params` stay JSON until the
/// action that reads them is known).
pub enum WsIncoming {
    Request { id: String, action: String },
    Subscribe { id: String, topic: String },
    Unsubscribe { id: String, topic: String },
    Ping { id: String },
}

/// A message sent to a WebSocket client.
#[allow(inconsistent_fields)]
pub enum WsOutgoing {
    Response { id: String, ok: bool, data: Option<ResponseData>, error: Option<String> },
    /// An event of a subscribed topic; `data` is JSON text.
    Event { topic: String, data: String },
    Subscribed { id: String, topic: String },
    Unsubscribed { id: String, topic: String },
    Pong { id: String },
}

/// The actions a request may name.
#[derive(Clone, Copy, Debug, PartialEq, Eq, Structural)]
pub enum GatewayAction {
    NodesList,
    NodesGet,
    NodesCount,
    NodesStatus,
    NodesActiveConnections,
    NodeCommand,
    Command,
    ConfigGet,
    PotstoreList,
    Unknown,
}

/// The action a request's `action` text names.
pub open spec fn action_named(a: Seq<char>) -> GatewayAction {
    if a == "nodes.list"@ {
        GatewayAction::NodesList
    } else if a == "nodes.get"@ {
        GatewayAction::NodesGet
    } else if a == "nodes.count"@ {
        GatewayAction::NodesCount
    } else if a == "nodes.status"@ {
        GatewayAction::NodesStatus
    } else if a == "nodes.active_connections"@ {
        GatewayAction::NodesActiveConnections
    } else if a == "node.command"@ {
        GatewayAction::NodeCommand
    } else if a == "command"@ {
        GatewayAction::Command
    } else if a == "config.get"@ {
        GatewayAction::ConfigGet
    } else if a == "potstore.list"@ {
        GatewayAction::PotstoreList
    } else {
        GatewayAction::Unknown
    }
}

impl GatewayAction {
    pub fn from_name(action: &str) -> (r: GatewayAction)
        ensures
            r == action_named(action@),
    {
        if same_text(action, "nodes.list") {
            GatewayAction::NodesList
        } else if same_text(action, "nodes.get") {
            GatewayAction::NodesGet
        } else if same_text(action, "nodes.count") {
            GatewayAction::NodesCount
        } else if same_text(action, "nodes.status") {
            GatewayAction::NodesStatus
        } else if same_text(action, "nodes.active_connections") {
            GatewayAction::NodesActiveConnections
        } else if same_text(action, "node.command") {
            GatewayAction::NodeCommand
        } else if same_text(action, "command") {
            GatewayAction::Command
        } else if same_text(action, "config.get") {
            GatewayAction::ConfigGet
        } else if same_text(action, "potstore.list") {
            GatewayAction::PotstoreList
        } else {
            GatewayAction::Unknown
        }
    }
}

/// A parameter read from a request's JSON `params`.
pub enum Param<T> {
    Missing,
    /// It is there but cannot be read; the text says why.
    Invalid(String),
    Given(T),
}

/// A request with the parameters its action reads.
#[allow(inconsistent_fields)]
pub enum GatewayRequest {
    NodesList,
    /// `params.node_id` as an unsigned number.
    NodesGet { node_id: Option<u64> },
    NodesCount,
    /// `params.status` as a node status.
    NodesStatus { status: Param<NodeStatus> },
    NodesActiveConnections,
    /// `params` as `{node_id, command}` (absent when it cannot be read), with
    /// `command` read as a node command.
    NodeCommand { command: Option<(u64, Result<NodeCommandType, String>)> },
    /// `params.command` as a backend command.
    Command { command: Param<BackendCommand> },
    ConfigGet,
    /// The text of the pot store file, or the error that reading it gave.
    PotstoreList { contents: Result<String, String> },
    Unknown,
}

/// How a request is answered.
pub enum GatewayOutcome {
    /// Send this message.
    Respond(WsOutgoing),
    /// Carry out the command; its response is then sent with
    /// `command_response`.
    Dispatch { id: String, outcome: CommandOutcome },
}

/// An error response to the request with the given id.
pub open spec fn error_response(o: GatewayOutcome, id: String, text: Seq<char>) -> bool {
    o matches GatewayOutcome::Respond(WsOutgoing::Response { id: rid, ok: false, data: None, error: Some(e) })
        && rid == id && e@ == text
}

/// A successful response to the request with the given id.
pub open spec fn data_response(o: GatewayOutcome, id: String, data: ResponseData) -> bool {
    o == GatewayOutcome::Respond(WsOutgoing::Response { id, ok: true, data: Some(data), error: None })
}

/// The response to a command carried out for a request.
pub fn command_response(id: String, response: BackendResponse) -> (r: WsOutgoing)
    ensures
        r == (WsOutgoing::Response {
            id,
            ok: true,
            data: Some(ResponseData::Response(Box::new(response))),
            error: None,
        }),
{
    WsOutgoing::Response {
        id,
        ok: true,
        data: Some(ResponseData::Response(Box::new(response))),
        error: None,
    }
}

/// The answer to a ping.
pub fn ping_reply(id: String) -> (r: WsOutgoing)
    ensures
        r == (WsOutgoing::Pong { id }),
{
    WsOutgoing::Pong { id }
}

/// The response to a message that is not a request, a subscription or a ping.
pub fn invalid_message(e: &str) -> (r: WsOutgoing)
    ensures
        r matches WsOutgoing::Response { id, ok: false, data: None, error: Some(t) } && id@
            == "unknown"@ && t@ == "Invalid message: "@ + e@,
{
    WsOutgoing::Response {
        id: "unknown".to_owned(),
        ok: false,
        data: None,
        error: Some(concat("Invalid message: ", e)),
    }
}

fn error_reply(id: String, text: &str) -> (o: GatewayOutcome)
    ensures
        error_response(o, id, text@),
{
    GatewayOutcome::Respond(WsOutgoing::Response { id, ok: false, data: None, error: Some(text.to_owned()) })
}

fn data_reply(id: String, data: ResponseData) -> (o: GatewayOutcome)
    ensures
        data_response(o, id, data),
{
    GatewayOutcome::Respond(WsOutgoing::Response { id, ok: true, data: Some(data), error: None })
}

/// The pot store's JSON, compacted, from the text read from its file; the
/// error of the read, or the parser's error when the text is not JSON.
pub fn potstore_contents(read: Result<String, String>) -> (r: Result<String, String>)
    ensures
        match read {
            Err(e) => r == Err::<String, String>(e),
            Ok(t) => if is_json_text(t@) {
                r matches Ok(j) && j@ == json_compact(t@)
            } else {
                r is Err
            },
        },
{
    match read {
        Err(e) => Err(e),
        Ok(t) => json_value_text(t.as_str()),
    }
}

/// Answers a request against the registry of nodes and the configuration.
pub fn handle_request(id: String, request: GatewayRequest, nodes: &mut NodeManager, config: &Config) -> (o: GatewayOutcome)
    requires
        old(nodes).wf(),
    ensures
        final(nodes).wf(),
        match request {
            GatewayRequest::NodeCommand { command: Some((node_id, Ok(c))) } => o matches GatewayOutcome::Dispatch { id: rid, outcome } && rid == id && command_answered(
                *old(nodes),
                *final(nodes),
                BackendCommand::NodeCommand { node_id, command: c },
                outcome,
            ),
            GatewayRequest::Command { command: Param::Given(c) } => o matches GatewayOutcome::Dispatch { id: rid, outcome } && rid == id && command_answered(
                *old(nodes),
                *final(nodes),
                c,
                outcome,
            ),
            _ => *final(nodes) == *old(nodes) && match request {
                GatewayRequest::NodesList => o matches GatewayOutcome::Respond(WsOutgoing::Response { id: rid, ok: true, data: Some(ResponseData::NodeIds(ids)), error: None })
                    && rid == id && ids@.to_set() == old(nodes).node_map().dom() && ids@.no_duplicates(),
                GatewayRequest::NodesGet { node_id: None } => error_response(o, id, "node_id is required"@),
                GatewayRequest::NodesGet { node_id: Some(n) } => if old(nodes).node_map().contains_key(n) {
                    data_response(o, id, ResponseData::NodeEntry(old(nodes).node_map()[n]))
                } else {
                    error_response(o, id, "Node not found"@)
                },
                GatewayRequest::NodesCount => data_response(o, id, ResponseData::Count(old(nodes).node_map().len() as u64)),
                GatewayRequest::NodesStatus { status: Param::Missing } => error_response(o, id, "status is required"@),
                GatewayRequest::NodesStatus { status: Param::Invalid(_) } => error_response(o, id, "Invalid status"@),
                GatewayRequest::NodesStatus { status: Param::Given(s) } => o matches GatewayOutcome::Respond(WsOutgoing::Response { id: rid, ok: true, data: Some(ResponseData::Nodes(v)), error: None })
                    && rid == id && crate::backend_manager::manager::lists_nodes_with_status(old(nodes).node_map(), s, v@),
                GatewayRequest::NodesActiveConnections => data_response(o, id, ResponseData::ActiveConnections(old(nodes).node_map().len() as u64)),
                GatewayRequest::NodeCommand { command: None } => error_response(o, id, "params must include node_id and command"@),
                GatewayRequest::NodeCommand { command: Some((_, Err(e))) } => error_response(o, id, "Invalid command: "@ + e@),
                GatewayRequest::Command { command: Param::Missing } => error_response(o, id, "command is required"@),
                GatewayRequest::Command { command: Param::Invalid(e) } => error_response(o, id, "Invalid command: "@ + e@),
                GatewayRequest::ConfigGet => o matches GatewayOutcome::Respond(WsOutgoing::Response { id: rid, ok: true, data: Some(ResponseData::Config(c)), error: None })
                    && rid == id && c.host == config.server.host && c.port == config.server.port && c.debug == config.server.debug
                    && c.level == config.logging.level && c.folder == config.logging.folder && c.file == config.logging.file && c.max_connections == config.database.max_connections,
                GatewayRequest::PotstoreList { contents: Ok(t) } => if is_json_text(t@) {
                    o matches GatewayOutcome::Respond(WsOutgoing::Response { id: rid, ok: true, data: Some(ResponseData::Json(j)), error: None })
                        && rid == id && j@ == json_compact(t@)
                } else {
                    o matches GatewayOutcome::Respond(WsOutgoing::Response { id: rid, ok: false, data: None, error: Some(_) }) && rid == id
                },
                GatewayRequest::PotstoreList { contents: Err(e) } => error_response(o, id, e@),
                GatewayRequest::Unknown => error_response(o, id, "Unknown action"@),
                _ => false,
            },
        },
{
    proof {
        nodes.lemma_wf();
    }
    match request {
        GatewayRequest::NodesList => {
            let ids = nodes.get_nodes();
            data_reply(id, ResponseData::NodeIds(ids))
        },
        GatewayRequest::NodesGet { node_id: None } => error_reply(id, "node_id is required"),
        GatewayRequest::NodesGet { node_id: Some(n) } => match nodes.get_node(n) {
            Some(node) => data_reply(id, ResponseData::NodeEntry(node)),
            None => error_reply(id, "Node not found"),
        },
        GatewayRequest::NodesCount => {
            let ids = nodes.get_nodes();
            proof {
                ids@.unique_seq_to_set();
            }
            data_reply(id, ResponseData::Count(ids.len() as u64))
        },
        GatewayRequest::NodesStatus { status: Param::Missing } => error_reply(id, "status is required"),
        GatewayRequest::NodesStatus { status: Param::Invalid(_) } => error_reply(id, "Invalid status"),
        GatewayRequest::NodesStatus { status: Param::Given(s) } => {
            let v = nodes.get_nodes_by_status(s);
            data_reply(id, ResponseData::Nodes(v))
        },
        GatewayRequest::NodesActiveConnections => {
            let ids = nodes.get_nodes();
            proof {
                ids@.unique_seq_to_set();
            }
            data_reply(id, ResponseData::ActiveConnections(ids.len() as u64))
        },
        GatewayRequest::NodeCommand { command: None } => error_reply(id, "params must include node_id and command"),
        GatewayRequest::NodeCommand { command: Some((node_id, Ok(c))) } => {
            let outcome = BackendManager::process_backend_command_static(
                0,
                BackendCommand::NodeCommand { node_id, command: c },
                nodes,
            );
            GatewayOutcome::Dispatch { id, outcome }
        },
        GatewayRequest::NodeCommand { command: Some((_, Err(e))) } => {
            let t = concat("Invalid command: ", e.as_str());
            error_reply(id, t.as_str())
        },
        GatewayRequest::Command { command: Param::Missing } => error_reply(id, "command is required"),
        GatewayRequest::Command { command: Param::Invalid(e) } => {
            let t = concat("Invalid command: ", e.as_str());
            error_reply(id, t.as_str())
        },
        GatewayRequest::Command { command: Param::Given(c) } => {
            let outcome = BackendManager::process_backend_command_static(0, c, nodes);
            GatewayOutcome::Dispatch { id, outcome }
        },
        GatewayRequest::ConfigGet => data_reply(id, ResponseData::Config(config.sanitized())),
        GatewayRequest::PotstoreList { contents } => match potstore_contents(contents) {
            Ok(j) => data_reply(id, ResponseData::Json(j)),
            Err(e) => error_reply(id, e.as_str()),
        },
        GatewayRequest::Unknown => error_reply(id, "Unknown action"),
    }
}

/// The topics a client may subscribe to.
#[derive(Clone, Copy, Debug, PartialEq, Eq, Structural)]
pub enum Topic {
    /// Log records of the honeypots.
    PotLogs,
    /// Events of the nodes.
    Nodes,
}

/// The topic a name names.
pub open spec fn topic_named(t: Seq<char>) -> Option<Topic> {
    if t == "pot_logs"@ {
        Some(Topic::PotLogs)
    } else if t == "nodes"@ {
        Some(Topic::Nodes)
    } else {
        None
    }
}

impl Topic {
    pub fn from_name(topic: &str) -> (r: Result<Topic, String>)
        ensures
            match topic_named(topic@) {
                Some(t) => r == Ok::<Topic, String>(t),
                None => r matches Err(e) && e@ == "Unknown topic"@,
            },
    {
        if same_text(topic, "pot_logs") {
            Ok(Topic::PotLogs)
        } else if same_text(topic, "nodes") {
            Ok(Topic::Nodes)
        } else {
            Err("Unknown topic".to_owned())
        }
    }
}

/// What is done with a subscription request.
pub enum SubscribeStep {
    /// Confirm; the client already receives the topic.
    AlreadySubscribed(WsOutgoing),
    /// Start forwarding the topic's events, and confirm.
    Start { topic: Topic, reply: WsOutgoing },
    /// Refuse.
    Refused(WsOutgoing),
}

/// The state of one client's connection: the backend id it registered
/// under, if any, and the topics it receives.
pub struct GatewaySession {
    backend_id: Option<u64>,
    topics: Vec<Topic>,
}

/// What a legacy backend envelope is answered with.
pub enum LegacyOutcome {
    /// Nothing is sent.
    Silent,
    /// Send this envelope (as raw JSON text).
    Send(MessageEnvelope<ManagerToBackendMessage>),
    /// Carry out the command; its response is then sent in a
    /// `BackendResponse` envelope.
    Dispatch(CommandOutcome),
}

impl GatewaySession {
    /// The topics the client receives.
    pub closed spec fn subscribed(&self) -> Set<Topic> {
        self.topics@.to_set()
    }

    /// The backend id the client registered under, if any.
    pub closed spec fn registered_as(&self) -> Option<u64> {
        self.backend_id
    }

    pub fn backend_id(&self) -> (r: Option<u64>)
        ensures
            r == self.registered_as(),
    {
        self.backend_id
    }

    pub fn new() -> (s: Self)
        ensures
            s.registered_as() is None,
            s.subscribed() == Set::<Topic>::empty(),
    {
        let s = GatewaySession { backend_id: None, topics: Vec::new() };
        assert(s.topics@.to_set() =~= Set::<Topic>::empty());
        s
    }

    fn holds(&self, t: Topic) -> (r: bool)
        ensures
            r == self.subscribed().contains(t),
    {
        let mut i: usize = 0;
        while i < self.topics.len()
            invariant
                i <= self.topics@.len(),
                forall|j: int| 0 <= j < i ==> self.topics@[j] != t,
            decreases self.topics@.len() - i,
        {
            if self.topics[i] == t {
                assert(self.topics@.contains(t));
                return true;
            }
            i = i + 1;
        }
        false
    }

    /// Answers a subscription request.
    pub fn subscribe(&mut self, id: String, topic: String) -> (r: SubscribeStep)
        ensures
            final(self).registered_as() == old(self).registered_as(),
            match topic_named(topic@) {
                None => final(self).subscribed() == old(self).subscribed() && (r matches SubscribeStep::Refused(WsOutgoing::Response { id: rid, ok: false, data: None, error: Some(e) }) && rid == id && e@ == "Unknown topic"@),
                Some(t) => final(self).subscribed() == old(self).subscribed().insert(t) && if old(self).subscribed().contains(t) {
                    r == SubscribeStep::AlreadySubscribed(WsOutgoing::Subscribed { id, topic })
                } else {
                    r == SubscribeStep::Start { topic: t, reply: WsOutgoing::Subscribed { id, topic } }
                },
            },
    {
        match Topic::from_name(topic.as_str()) {
            Err(e) => SubscribeStep::Refused(WsOutgoing::Response { id, ok: false, data: None, error: Some(e) }),
            Ok(t) => {
                if self.holds(t) {
                    assert(old(self).subscribed().insert(t) =~= old(self).subscribed());
                    SubscribeStep::AlreadySubscribed(WsOutgoing::Subscribed { id, topic })
                } else {
                    let ghost before = self.topics@;
                    self.topics.push(t);
                    assert forall|x: Topic| self.topics@.to_set().contains(x) <==> before.to_set().insert(t).contains(x) by {
                        if self.topics@.contains(x) && x != t {
                            let j = choose|j: int| 0 <= j < self.topics@.len() && self.topics@[j] == x;
                            assert(before[j] == x);
                        }
                        if before.contains(x) {
                            let j = choose|j: int| 0 <= j < before.len() && before[j] == x;
                            assert(self.topics@[j] == x);
                        }
                        if x == t {
                            assert(self.topics@[before.len() as int] == x);
                        }
                    }
                    assert(self.topics@.to_set() =~= old(self).topics@.to_set().insert(t));
                    SubscribeStep::Start { topic: t, reply: WsOutgoing::Subscribed { id, topic } }
                }
            },
        }
    }

    /// Answers a request to stop receiving a topic; returns the confirmation
    /// and the topic whose forwarding is to stop, if it was received.
    pub fn unsubscribe(&mut self, id: String, topic: String) -> (r: (WsOutgoing, Option<Topic>))
        ensures
            final(self).registered_as() == old(self).registered_as(),
            r.0 == (WsOutgoing::Unsubscribed { id, topic }),
            match topic_named(topic@) {
                Some(t) => final(self).subscribed() == old(self).subscribed().remove(t)
                    && r.1 == (if old(self).subscribed().contains(t) { Some(t) } else { None }),
                None => final(self).subscribed() == old(self).subscribed() && r.1 is None,
            },
    {
        let stopped = match Topic::from_name(topic.as_str()) {
            Err(_) => None,
            Ok(t) => {
                let held = self.holds(t);
                let mut kept: Vec<Topic> = Vec::new();
                let mut i: usize = 0;
                while i < self.topics.len()
                    invariant
                        i <= self.topics@.len(),
                        forall|x: Topic| kept@.contains(x) <==> (x != t && exists|j: int| 0 <= j < i && self.topics@[j] == x),
                    decreases self.topics@.len() - i,
                {
                    let x = self.topics[i];
                    let ghost before_k = kept@;
                    if x != t {
                        kept.push(x);
                    }
                    assert forall|y: Topic| kept@.contains(y) <==> (y != t && exists|j: int| 0 <= j < i + 1 && self.topics@[j] == y) by {
                        if kept@.contains(y) {
                            let m = choose|m: int| 0 <= m < kept@.len() && kept@[m] == y;
                            if m < before_k.len() {
                                assert(before_k[m] == y);
                                assert(before_k.contains(y));
                            } else {
                                assert(self.topics@[i as int] == y);
                            }
                        }
                        if y != t && exists|j: int| 0 <= j < i + 1 && self.topics@[j] == y {
                            let j = choose|j: int| 0 <= j < i + 1 && self.topics@[j] == y;
                            if j < i {
                                assert(before_k.contains(y));
                                let m = choose|m: int| 0 <= m < before_k.len() && before_k[m] == y;
                                assert(kept@[m] == y);
                            } else {
                                assert(kept@[before_k.len() as int] == y);
                            }
                        }
                    }
                    i = i + 1;
                }
                let ghost before = self.topics@;
                self.topics = kept;
                assert forall|x: Topic| self.topics@.to_set().contains(x) <==> old(self).subscribed().remove(t).contains(x) by {
                    if self.topics@.contains(x) {
                        let j = choose|j: int| 0 <= j < before.len() && before[j] == x;
                        assert(before.contains(x));
                    }
                    if old(self).subscribed().remove(t).contains(x) {
                        assert(before.contains(x));
                        let j = choose|j: int| 0 <= j < before.len() && before[j] == x;
                    }
                }
                assert(self.topics@.to_set() =~= old(self).subscribed().remove(t));
                if held {
                    Some(t)
                } else {
                    None
                }
            },
        };
        (WsOutgoing::Unsubscribed { id, topic }, stopped)
    }

    /// Answers an envelope of the backend protocol sent over the WebSocket. A
    /// registration gets a random backend id.
    pub fn handle_legacy_backend_message(
        &mut self,
        envelope: MessageEnvelope<BackendToManagerMessage>,
        nodes: &mut NodeManager,
    ) -> (r: LegacyOutcome)
        requires
            old(nodes).wf(),
        ensures
            final(nodes).wf(),
            final(self).subscribed() == old(self).subscribed(),
            match envelope.message {
                BackendToManagerMessage::BackendRegistration(reg) => *final(nodes) == *old(nodes)
                    && final(self).registered_as() is Some && registration_acknowledged(
                    r,
                    final(self).registered_as()->0,
                    reg.backend_name@,
                ),
                BackendToManagerMessage::BackendCommand(cmd) => final(self).registered_as() == old(self).registered_as()
                    && (r matches LegacyOutcome::Dispatch(outcome) && command_answered(*old(nodes), *final(nodes), cmd, outcome)),
                BackendToManagerMessage::BackendDrop => *final(nodes) == *old(nodes) && final(self).registered_as()
                    == old(self).registered_as() && r is Silent,
            },
    {
        match envelope.message {
            BackendToManagerMessage::BackendRegistration(reg) => {
                let id = random_id();
                self.registered(id, reg.backend_name.as_str())
            },
            BackendToManagerMessage::BackendCommand(cmd) => {
                let backend_id = match self.backend_id {
                    Some(b) => b,
                    None => 0,
                };
                LegacyOutcome::Dispatch(BackendManager::process_backend_command_static(backend_id, cmd, nodes))
            },
            BackendToManagerMessage::BackendDrop => LegacyOutcome::Silent,
        }
    }

    /// Records the id a backend registered under and acknowledges it.
    pub fn registered(&mut self, id: u64, backend_name: &str) -> (r: LegacyOutcome)
        ensures
            final(self).subscribed() == old(self).subscribed(),
            final(self).registered_as() == Some(id),
            registration_acknowledged(r, id, backend_name@),
    {
        self.backend_id = Some(id);
        LegacyOutcome::Send(
            MessageEnvelope::new(
                PROTOCOL_VERSION,
                ManagerToBackendMessage::ManagerRegistrationAck(
                    BackendRegistrationAck {
                        backend_id: id,
                        accepted: true,
                        message: Some(concat("Registration successful: ", backend_name)),
                    },
                ),
            ),
        )
    }
}

/// After a subscription to a topic, the client receives it, so that a
/// second subscription only confirms; after an unsubscription it no longer
/// does.
pub proof fn law_subscription_state(before: GatewaySession, subscribed: GatewaySession, unsubscribed: GatewaySession, t: Topic)
    requires
        subscribed.subscribed() == before.subscribed().insert(t),
        unsubscribed.subscribed() == subscribed.subscribed().remove(t),
    ensures
        subscribed.subscribed().contains(t),
        subscribed.subscribed().insert(t) == subscribed.subscribed(),
        !unsubscribed.subscribed().contains(t),
        unsubscribed.subscribed() == before.subscribed().remove(t),
{
    assert(subscribed.subscribed().insert(t) =~= subscribed.subscribed());
    assert(unsubscribed.subscribed() =~= before.subscribed().remove(t));
}

/// The acknowledgement of a backend registered under `id`.
pub open spec fn registration_acknowledged(r: LegacyOutcome, id: u64, name: Seq<char>) -> bool {
    match r {
        LegacyOutcome::Send(e) => e.version == PROTOCOL_VERSION && match e.message {
            ManagerToBackendMessage::ManagerRegistrationAck(ack) => {
                &&& ack.backend_id == id
                &&& ack.accepted
                &&& ack.message matches Some(t) && t@ == "Registration successful: "@ + name
            },
            _ => false,
        },
        _ => false,
    }
}

} // verus!
