use vstd::prelude::*;

use std::collections::{HashMap, HashSet};
use vstd::std_specs::iter::IteratorSpec;

use crate::backend_manager::backend::Backend;
use crate::message::backend::backend_to_manager::{BackendCommand, BackendToManagerMessage};
use crate::message::backend::backend_type::{same_backend_type, BackendType};
use crate::message::backend::manager_to_backend::{
    BackendResponse, ManagerToBackendMessage, ResponseData,
};
use crate::message::common::{status_name, MessageEnvelope, NodeStatus, PROTOCOL_VERSION};
use crate::message::node::manager_to_node::{ManagerToNodeMessage, NodeCommand, NodeCommandType};
use crate::node_manager::manager::{node_not_found, send_failure, Broadcast, NodeManager};
use crate::node_manager::node::{disconnected, Node};
use crate::text::{chars_of, concat, decimal, find_chars_from, find_first, numbered, numbered_text};

verus! {

/// The manager's registry of backends, keyed by backend id.
pub struct BackendManager {
    backends: HashMap<u64, Backend>,
    tasks: HashSet<u64>,
}

/// What the manager does to answer a backend's command.
pub enum CommandOutcome {
    /// Send this response.
    Reply(BackendResponse),
    /// A node was removed from the registry: close its stream and stop its
    /// handler, then send the response.
    ReplyAndClose { response: BackendResponse, node_id: u64 },
    /// Write the envelope to the node; the response then depends on whether
    /// the write worked (`delivery_response`).
    Deliver { node_id: u64, envelope: MessageEnvelope<ManagerToNodeMessage> },
    /// Write the envelope to each recipient, then send the response.
    Broadcast { broadcast: Broadcast, response: BackendResponse },
}

/// What a backend's connection handler does with the next message it read.
pub enum ConnectionStep {
    /// Answer this message.
    Handle(BackendToManagerMessage),
    /// The message could not be parsed (this is why): read the next one.
    Skip(String),
    /// The backend closed its stream: stop.
    Disconnected,
    /// Reading failed with this error: stop.
    Stop(String),
}

/// Whether `ids` lists each registered node id once.
pub open spec fn lists_ids(m: Map<u64, Node>, ids: Seq<u64>) -> bool {
    ids.to_set() == m.dom() && ids.no_duplicates()
}

/// Whether `nodes` lists each registered node with the given status once.
pub open spec fn lists_nodes_with_status(m: Map<u64, Node>, status: NodeStatus, nodes: Seq<Node>) -> bool {
    &&& forall|n: Node| nodes.contains(n) <==> (m.contains_key(n.id) && m[n.id] == n && n.status == status)
    &&& nodes.no_duplicates()
}

/// A success response with the given message and data.
pub open spec fn success(r: BackendResponse, message: Seq<char>, data: Option<ResponseData>) -> bool {
    r matches BackendResponse::Success { message: Some(t), data: d } && t@ == message && d == data
}

/// A failure response with the given text.
pub open spec fn failure(r: BackendResponse, text: Seq<char>) -> bool {
    r matches BackendResponse::Failure(t) && t@ == text
}

/// The text of a failed send of a command to a node.
pub open spec fn command_failed(node_id: u64, e: Seq<char>) -> Seq<char> {
    numbered("Failed to send command to node "@, node_id as nat, ": "@) + e
}

/// The text of a protocol version mismatch.
pub open spec fn version_mismatch(version: u64) -> Seq<char> {
    numbered("Protocol version mismatch: got "@, version as nat, ", expected 2"@)
}

/// How the manager answers a backend's command: `before` and `after` are
/// the registry of nodes before and after, `r` the outcome.
pub open spec fn command_answered(
    before: NodeManager,
    after: NodeManager,
    command: BackendCommand,
    r: CommandOutcome,
) -> bool {
    let m = before.node_map();
    match command {
        BackendCommand::RemoveNode { node_id } => {
            &&& after.node_map() == m.remove(node_id)
            &&& after.task_ids() == before.task_ids().remove(node_id)
            &&& if m.contains_key(node_id) {
                r matches CommandOutcome::ReplyAndClose { response, node_id: id } && id == node_id
                    && success(response, numbered("Node "@, node_id as nat, " removed"@), None)
            } else {
                r matches CommandOutcome::Reply(resp) && failure(resp, node_not_found(node_id))
            }
        },
        _ => after == before && match command {
            BackendCommand::GetNodes => r matches CommandOutcome::Reply(
                BackendResponse::Success { message: Some(t), data: Some(ResponseData::NodeIds(ids)) },
            ) && lists_ids(m, ids@) && t@ == numbered("Retrieved "@, m.len(), " nodes"@),
            BackendCommand::GetNode { node_id } => if m.contains_key(node_id) {
                r matches CommandOutcome::Reply(resp) && success(
                    resp,
                    numbered("Node "@, node_id as nat, " retrieved"@),
                    Some(ResponseData::Node(m[node_id])),
                )
            } else {
                r matches CommandOutcome::Reply(resp) && failure(resp, node_not_found(node_id))
            },
            BackendCommand::NodeCommand { node_id, command } => {
                let msg = ManagerToNodeMessage::NodeCommand(NodeCommand { node_id, command });
                if !m.contains_key(node_id) {
                    r matches CommandOutcome::Reply(resp) && failure(
                        resp,
                        command_failed(node_id, node_not_found(node_id)),
                    )
                } else if !m[node_id].writer_attached {
                    r matches CommandOutcome::Reply(resp) && failure(
                        resp,
                        command_failed(node_id, send_failure("No writer available"@)),
                    )
                } else {
                    r matches CommandOutcome::Deliver { node_id: id, envelope } && id == node_id
                        && envelope.version == PROTOCOL_VERSION && envelope.message == msg
                }
            },
            BackendCommand::BroadcastCommand { command } => r matches CommandOutcome::Broadcast {
                broadcast,
                response,
            } && success(response, "Command broadcast to all nodes"@, None)
                && broadcast.envelope.version == PROTOCOL_VERSION && broadcast.envelope.message
                == ManagerToNodeMessage::NodeCommand(NodeCommand { node_id: 0, command })
                && (forall|id: u64|
                broadcast.recipients@.contains(id) <==> (m.contains_key(id) && m[id].writer_attached))
                && (forall|id: u64|
                broadcast.unreachable@.contains(id) <==> (m.contains_key(id)
                    && !m[id].writer_attached)) && broadcast.recipients@.no_duplicates()
                && broadcast.unreachable@.no_duplicates(),
            BackendCommand::GetNodesByStatus { status } => r matches CommandOutcome::Reply(
                BackendResponse::Success { message: Some(t), data: Some(ResponseData::Nodes(nodes)) },
            ) && lists_nodes_with_status(m, status, nodes@) && t@ == numbered(
                "Retrieved "@,
                nodes@.len(),
                " nodes with status "@,
            ) + status_name(status),
            BackendCommand::GetNodeCount => r matches CommandOutcome::Reply(resp) && success(
                resp,
                numbered("Total nodes: "@, m.len(), ""@),
                Some(ResponseData::Count(m.len() as u64)),
            ),
            BackendCommand::GetActiveConnections => r matches CommandOutcome::Reply(resp) && success(
                resp,
                numbered("Active connections: "@, before.task_ids().len(), ""@),
                Some(ResponseData::Count(before.task_ids().len() as u64)),
            ),
            _ => false,
        },
    }
}

// ---------------------------------------------------------------------------
// Laws of the commands
// ---------------------------------------------------------------------------
/// Every command but `RemoveNode` leaves the registry of nodes as it was.
pub proof fn law_only_remove_changes_registry(
    before: NodeManager,
    after: NodeManager,
    command: BackendCommand,
    r: CommandOutcome,
)
    requires
        command_answered(before, after, command, r),
        !(command is RemoveNode),
    ensures
        after == before,
{
}

/// After a node is removed, asking for it answers that it is not found.
pub proof fn law_removed_node_not_found(
    before: NodeManager,
    middle: NodeManager,
    after: NodeManager,
    node_id: u64,
    r1: CommandOutcome,
    r2: CommandOutcome,
)
    requires
        command_answered(before, middle, BackendCommand::RemoveNode { node_id }, r1),
        command_answered(middle, after, BackendCommand::GetNode { node_id }, r2),
    ensures
        r2 matches CommandOutcome::Reply(resp) && failure(resp, node_not_found(node_id)),
{
}

/// Removing a node that is not registered answers that it is not found and
/// changes nothing.
pub proof fn law_remove_unknown_node(
    before: NodeManager,
    after: NodeManager,
    node_id: u64,
    r: CommandOutcome,
)
    requires
        !before.node_map().contains_key(node_id),
        command_answered(before, after, BackendCommand::RemoveNode { node_id }, r),
    ensures
        after.node_map() == before.node_map(),
        r matches CommandOutcome::Reply(resp) && failure(resp, node_not_found(node_id)),
{
    assert(before.node_map().remove(node_id) =~= before.node_map());
}

/// The nodes `GetNodes` lists are as many as `GetNodeCount` counts.
pub proof fn law_listing_matches_count(
    before: NodeManager,
    after1: NodeManager,
    after2: NodeManager,
    r1: CommandOutcome,
    r2: CommandOutcome,
)
    requires
        before.wf(),
        command_answered(before, after1, BackendCommand::GetNodes, r1),
        command_answered(before, after2, BackendCommand::GetNodeCount, r2),
    ensures
        r1 matches CommandOutcome::Reply(BackendResponse::Success { data: Some(ResponseData::NodeIds(ids)), .. })
            && (r2 matches CommandOutcome::Reply(BackendResponse::Success { data: Some(ResponseData::Count(c)), .. })
            && ids@.len() == c),
{
    before.lemma_wf();
    if let CommandOutcome::Reply(BackendResponse::Success { data: Some(ResponseData::NodeIds(ids)), .. }) = r1 {
        ids@.unique_seq_to_set();
    }
}

/// A command is handed to a node only when the node is registered and has a
/// writer, and it is addressed to that node.
pub proof fn law_delivery_only_to_connected(
    before: NodeManager,
    after: NodeManager,
    node_id: u64,
    command: NodeCommandType,
    r: CommandOutcome,
)
    requires
        command_answered(before, after, BackendCommand::NodeCommand { node_id, command }, r),
        r is Deliver,
    ensures
        before.node_map().contains_key(node_id),
        before.node_map()[node_id].writer_attached,
        r matches CommandOutcome::Deliver { node_id: to, envelope } && to == node_id
            && (envelope.message matches ManagerToNodeMessage::NodeCommand(c) && c.node_id == node_id),
{
}

/// `GetNodes` lists every registered id once and no other, says how many,
/// and changes nothing.
pub proof fn law_get_nodes_lists_the_registry(
    before: NodeManager,
    after: NodeManager,
    r: CommandOutcome,
)
    requires
        before.wf(),
        command_answered(before, after, BackendCommand::GetNodes, r),
    ensures
        after == before,
        r matches CommandOutcome::Reply(BackendResponse::Success { message: Some(t), data: Some(ResponseData::NodeIds(ids)) })
            && (forall|id: u64| #[trigger] ids@.contains(id) <==> before.node_map().contains_key(id))
            && ids@.no_duplicates() && ids@.len() == before.node_map().len()
            && t@ == "Retrieved "@ + decimal(before.node_map().len()) + " nodes"@,
{
    before.lemma_wf();
    if let CommandOutcome::Reply(BackendResponse::Success { data: Some(ResponseData::NodeIds(ids)), .. }) = r {
        ids@.unique_seq_to_set();
        assert forall|id: u64| #[trigger] ids@.contains(id) <==> before.node_map().contains_key(id) by {
            assert(ids@.contains(id) <==> ids@.to_set().contains(id));
        }
    }
}

/// `GetNodesByStatus` lists exactly the registered nodes whose status is
/// the one asked for, each as the registry holds it, and says how many.
pub proof fn law_nodes_by_status_filter(
    before: NodeManager,
    after: NodeManager,
    status: NodeStatus,
    r: CommandOutcome,
)
    requires
        before.wf(),
        command_answered(before, after, BackendCommand::GetNodesByStatus { status }, r),
    ensures
        after == before,
        r matches CommandOutcome::Reply(BackendResponse::Success { message: Some(t), data: Some(ResponseData::Nodes(v)) })
            && (forall|n: Node| #[trigger] v@.contains(n) ==> n.status == status && before.node_map().contains_key(n.id)
                && before.node_map()[n.id] == n)
            && (forall|id: u64| #[trigger] before.node_map().contains_key(id) && before.node_map()[id].status == status
                ==> v@.contains(before.node_map()[id]))
            && t@ == "Retrieved "@ + decimal(v@.len()) + " nodes with status "@ + status_name(status),
{
    before.lemma_wf();
}

/// A command for one registered node with a writer is handed to that node
/// as it was asked for: the envelope carries the node's id and exactly the
/// requested command. A node that is not registered, or has no writer, gets
/// nothing, and the backend is told why.
pub proof fn law_node_command_carried_as_asked(
    before: NodeManager,
    after: NodeManager,
    node_id: u64,
    command: NodeCommandType,
    r: CommandOutcome,
)
    requires
        command_answered(before, after, BackendCommand::NodeCommand { node_id, command }, r),
    ensures
        after == before,
        before.node_map().contains_key(node_id) && before.node_map()[node_id].writer_attached
            <==> r is Deliver,
        r matches CommandOutcome::Deliver { node_id: to, envelope } ==> to == node_id
            && envelope.version == PROTOCOL_VERSION
            && envelope.message == ManagerToNodeMessage::NodeCommand(NodeCommand { node_id, command }),
        !before.node_map().contains_key(node_id) ==> (r matches CommandOutcome::Reply(BackendResponse::Failure(t))
            && t@ == "Failed to send command to node "@ + decimal(node_id as nat) + ": "@ + "Node "@
            + decimal(node_id as nat) + " not found"@),
{
    if !before.node_map().contains_key(node_id) {
        assert(command_failed(node_id, node_not_found(node_id)) =~= "Failed to send command to node "@
            + decimal(node_id as nat) + ": "@ + "Node "@ + decimal(node_id as nat) + " not found"@);
    }
}

/// `GetNode` reports the registered node exactly as the registry holds it
/// (its name, status and stream), and changes nothing; an id that is not
/// registered is answered `Node <id> not found`.
pub proof fn law_get_node_reports_the_entry(
    before: NodeManager,
    after: NodeManager,
    node_id: u64,
    r: CommandOutcome,
)
    requires
        command_answered(before, after, BackendCommand::GetNode { node_id }, r),
    ensures
        after == before,
        before.node_map().contains_key(node_id) ==> (r matches CommandOutcome::Reply(
            BackendResponse::Success { message: Some(t), data: Some(ResponseData::Node(n)) },
        ) && n == before.node_map()[node_id] && n.status == before.node_map()[node_id].status
            && t@ == "Node "@ + decimal(node_id as nat) + " retrieved"@),
        !before.node_map().contains_key(node_id) ==> (r matches CommandOutcome::Reply(BackendResponse::Failure(t))
            && t@ == "Node "@ + decimal(node_id as nat) + " not found"@),
{
}

/// `RemoveNode` takes exactly that node out of the registry (and stops its
/// handler), leaving every other node as it was; `GetNodeCount` and
/// `GetActiveConnections` report the number of registered nodes and of
/// running handlers.
pub proof fn law_remove_and_counts(
    before: NodeManager,
    removed: NodeManager,
    counted: NodeManager,
    connections: NodeManager,
    node_id: u64,
    r1: CommandOutcome,
    r2: CommandOutcome,
    r3: CommandOutcome,
)
    requires
        before.wf(),
        command_answered(before, removed, BackendCommand::RemoveNode { node_id }, r1),
        command_answered(before, counted, BackendCommand::GetNodeCount, r2),
        command_answered(before, connections, BackendCommand::GetActiveConnections, r3),
    ensures
        !removed.node_map().contains_key(node_id),
        forall|id: u64| id != node_id ==> #[trigger] removed.node_map().get(id) == before.node_map().get(id),
        !removed.task_ids().contains(node_id),
        before.node_map().contains_key(node_id) <==> r1 is ReplyAndClose,
        r1 matches CommandOutcome::ReplyAndClose { node_id: closed, .. } ==> closed == node_id,
        counted == before && connections == before,
        r2 matches CommandOutcome::Reply(BackendResponse::Success { data: Some(ResponseData::Count(c)), .. })
            && c == before.node_map().len(),
        r3 matches CommandOutcome::Reply(BackendResponse::Success { data: Some(ResponseData::Count(c)), .. })
            && c == before.task_ids().len(),
{
    before.lemma_wf();
}

/// A broadcast hands every node with a writer, and only those, exactly the
/// command that was asked for, addressed to node 0; the backend is told it
/// was broadcast.
pub proof fn law_broadcast_carries_the_command(
    before: NodeManager,
    after: NodeManager,
    command: NodeCommandType,
    r: CommandOutcome,
)
    requires
        command_answered(before, after, BackendCommand::BroadcastCommand { command }, r),
    ensures
        after == before,
        r is Broadcast,
        r->broadcast.envelope.version == PROTOCOL_VERSION,
        r->broadcast.envelope.message == ManagerToNodeMessage::NodeCommand(NodeCommand { node_id: 0, command }),
        forall|id: u64|
            #[trigger] r->broadcast.recipients@.contains(id) <==> (before.node_map().contains_key(id)
                && before.node_map()[id].writer_attached),
        r->Broadcast_response matches BackendResponse::Success { message: Some(t), data: None }
            && t@ == "Command broadcast to all nodes"@,
{
    let m = before.node_map();
    if let CommandOutcome::Broadcast { broadcast, response } = r {
        assert forall|id: u64| #[trigger] r->broadcast.recipients@.contains(id) implies (m.contains_key(id)
            && m[id].writer_attached) by {
            assert(broadcast.recipients@.contains(id));
        }
        assert forall|id: u64| m.contains_key(id) && m[id].writer_attached implies #[trigger] r->broadcast.recipients@.contains(
            id,
        ) by {
            assert(r->broadcast.recipients@.contains(id) == broadcast.recipients@.contains(id));
        }
    }
}

/// A fresh backend id drawn with `rand::random::<u64>()`. Nothing is
/// stated of its value: any `u64` may come back, and two calls may differ.
#[verifier::external_body]
pub(crate) fn random_id() -> u64 {
    rand::random::<u64>()
}

impl BackendManager {
    pub closed spec fn backend_map(&self) -> Map<u64, Backend> {
        self.backends@
    }

    pub closed spec fn task_ids(&self) -> Set<u64> {
        self.tasks@
    }

    /// Every backend is filed under its own id.
    pub closed spec fn wf(&self) -> bool {
        forall|k: u64| #[trigger] self.backends@.contains_key(k) ==> self.backends@[k].id == k
    }

    pub fn new() -> (m: Self)
        ensures
            m.wf(),
            m.backend_map() == Map::<u64, Backend>::empty(),
            m.task_ids() == Set::<u64>::empty(),
    {
        BackendManager { backends: HashMap::new(), tasks: HashSet::new() }
    }

    /// The id given to a backend whose first message is its registration,
    /// or the reason it is refused. The id is drawn at random.
    pub fn handle_registration(envelope: MessageEnvelope<BackendToManagerMessage>) -> (r: Result<u64, String>)
        ensures
            envelope.version != PROTOCOL_VERSION ==> (r matches Err(t) && t@ == version_mismatch(envelope.version)),
            envelope.version == PROTOCOL_VERSION ==> match envelope.message {
                BackendToManagerMessage::BackendRegistration(_) => r is Ok,
                _ => r matches Err(t) && t@ == "Expected BackendRegistration message"@,
            },
    {
        let id = random_id();
        Self::registration_outcome(envelope, id)
    }

    /// The outcome of a registration once the backend's id is drawn.
    pub fn registration_outcome(envelope: MessageEnvelope<BackendToManagerMessage>, id: u64) -> (r: Result<u64, String>)
        ensures
            envelope.version != PROTOCOL_VERSION ==> (r matches Err(t) && t@ == version_mismatch(envelope.version)),
            envelope.version == PROTOCOL_VERSION ==> match envelope.message {
                BackendToManagerMessage::BackendRegistration(_) => r == Ok::<u64, String>(id),
                _ => r matches Err(t) && t@ == "Expected BackendRegistration message"@,
            },
    {
        if envelope.version != PROTOCOL_VERSION {
            return Err(numbered_text("Protocol version mismatch: got ", envelope.version, ", expected 2"));
        }
        match envelope.message {
            BackendToManagerMessage::BackendRegistration(_) => Ok(id),
            _ => Err("Expected BackendRegistration message".to_owned()),
        }
    }

    /// The text given when a registration cannot be parsed.
    pub fn registration_parse_error(e: &str) -> (r: String)
        ensures
            r@ == "Failed to parse registration: "@ + e@,
    {
        concat("Failed to parse registration: ", e)
    }

    /// The acknowledgement sent to a backend once it is registered.
    pub fn registration_ack(backend_id: u64) -> (e: MessageEnvelope<ManagerToBackendMessage>)
        ensures
            e.version == PROTOCOL_VERSION,
            e.message matches ManagerToBackendMessage::BackendResponse(r) && success(
                r,
                "Registration successful"@,
                Some(ResponseData::BackendId(backend_id)),
            ),
    {
        MessageEnvelope::new(
            PROTOCOL_VERSION,
            ManagerToBackendMessage::BackendResponse(
                BackendResponse::Success {
                    message: Some("Registration successful".to_owned()),
                    data: Some(ResponseData::BackendId(backend_id)),
                },
            ),
        )
    }

    /// Files a backend under its id.
    pub fn register_backend(&mut self, backend: Backend)
        requires
            old(self).wf(),
        ensures
            final(self).wf(),
            final(self).backend_map() == old(self).backend_map().insert(backend.id, backend),
            final(self).task_ids() == old(self).task_ids(),
    {
        let id = backend.id;
        self.backends.insert(id, backend);
    }

    /// Forgets a backend whose connection ended.
    pub fn connection_closed(&mut self, backend_id: u64)
        requires
            old(self).wf(),
        ensures
            final(self).wf(),
            final(self).backend_map() == old(self).backend_map().remove(backend_id),
            final(self).task_ids() == old(self).task_ids().remove(backend_id),
    {
        self.backends.remove(&backend_id);
        self.tasks.remove(&backend_id);
    }

    /// The registry of backends.
    pub fn get_backends(&self) -> (r: &HashMap<u64, Backend>)
        ensures
            r@ == self.backend_map(),
    {
        &self.backends
    }

    pub fn active_connections(&self) -> (n: usize)
        ensures
            n == self.task_ids().len(),
    {
        self.tasks.len()
    }

    pub fn get_backend(&self, backend_id: u64) -> (r: Option<Backend>)
        ensures
            r == self.backend_map().get(backend_id),
    {
        match self.backends.get(&backend_id) {
            Some(b) => Some(b.clone()),
            None => None,
        }
    }

    pub fn remove_backend(&mut self, backend_id: u64) -> (r: Option<Backend>)
        requires
            old(self).wf(),
        ensures
            final(self).wf(),
            final(self).backend_map() == old(self).backend_map().remove(backend_id),
            final(self).task_ids() == old(self).task_ids().remove(backend_id),
            r == old(self).backend_map().get(backend_id),
    {
        let b = self.backends.remove(&backend_id);
        self.tasks.remove(&backend_id);
        b
    }

    pub fn backend_count(&self) -> (n: usize)
        ensures
            n == self.backend_map().len(),
    {
        self.backends.len()
    }

    /// What the connection handler does with the next read of a backend's
    /// stream: the framed message parsed into an envelope (or the parse
    /// error), or the error that ended the read. A read error that mentions
    /// `EOF` is the backend closing its stream.
    pub fn connection_step(
        read: Result<Result<MessageEnvelope<BackendToManagerMessage>, String>, String>,
    ) -> (s: ConnectionStep)
        ensures
            match read {
                Ok(Ok(envelope)) => s == ConnectionStep::Handle(envelope.message),
                Ok(Err(e)) => s == ConnectionStep::Skip(e),
                Err(e) => if find_first(e@, "EOF"@) is Some {
                    s is Disconnected
                } else {
                    s == ConnectionStep::Stop(e)
                },
            },
    {
        match read {
            Ok(Ok(envelope)) => ConnectionStep::Handle(envelope.message),
            Ok(Err(e)) => ConnectionStep::Skip(e),
            Err(e) => {
                let text = chars_of(e.as_str());
                let eof = chars_of("EOF");
                if find_chars_from(&text, &eof, 0).is_some() {
                    ConnectionStep::Disconnected
                } else {
                    ConnectionStep::Stop(e)
                }
            },
        }
    }

    /// Whether the connection handler reads on once a response was written:
    /// only when the write worked.
    pub fn keeps_reading(written: &Result<(), String>) -> (b: bool)
        ensures
            b == written is Ok,
    {
        written.is_ok()
    }

    /// Answers a message that a registered backend sent.
    pub fn handle_backend_message_static(
        message: BackendToManagerMessage,
        backend_id: u64,
        node_manager: &mut NodeManager,
    ) -> (r: CommandOutcome)
        requires
            old(node_manager).wf(),
        ensures
            final(node_manager).wf(),
            match message {
                BackendToManagerMessage::BackendCommand(cmd) => command_answered(
                    *old(node_manager),
                    *final(node_manager),
                    cmd,
                    r,
                ),
                BackendToManagerMessage::BackendDrop => *final(node_manager) == *old(node_manager)
                    && (r matches CommandOutcome::Reply(resp) && success(
                    resp,
                    "Disconnect acknowledged"@,
                    None,
                )),
                BackendToManagerMessage::BackendRegistration(_) => *final(node_manager) == *old(
                    node_manager,
                ) && (r matches CommandOutcome::Reply(resp) && failure(
                    resp,
                    "Unexpected message type after registration"@,
                )),
            },
    {
        match message {
            BackendToManagerMessage::BackendCommand(cmd) => Self::process_backend_command_static(
                backend_id,
                cmd,
                node_manager,
            ),
            BackendToManagerMessage::BackendDrop => CommandOutcome::Reply(
                BackendResponse::Success {
                    message: Some("Disconnect acknowledged".to_owned()),
                    data: None,
                },
            ),
            _ => CommandOutcome::Reply(
                BackendResponse::Failure("Unexpected message type after registration".to_owned()),
            ),
        }
    }

    /// Answers a command of a backend against the registry of nodes.
    pub fn process_backend_command_static(
        backend_id: u64,
        command: BackendCommand,
        node_manager: &mut NodeManager,
    ) -> (r: CommandOutcome)
        requires
            old(node_manager).wf(),
        ensures
            final(node_manager).wf(),
            command_answered(*old(node_manager), *final(node_manager), command, r),
    {
        proof {
            node_manager.lemma_wf();
        }
        match command {
            BackendCommand::GetNodes => {
                let node_ids = node_manager.get_nodes();
                let n = node_ids.len() as u64;
                proof {
                    node_ids@.unique_seq_to_set();
                }
                CommandOutcome::Reply(
                    BackendResponse::Success {
                        message: Some(numbered_text("Retrieved ", n, " nodes")),
                        data: Some(ResponseData::NodeIds(node_ids)),
                    },
                )
            },
            BackendCommand::GetNode { node_id } => match node_manager.get_node(node_id) {
                Some(node) => CommandOutcome::Reply(
                    BackendResponse::Success {
                        message: Some(numbered_text("Node ", node_id, " retrieved")),
                        data: Some(ResponseData::Node(node)),
                    },
                ),
                None => CommandOutcome::Reply(
                    BackendResponse::Failure(numbered_text("Node ", node_id, " not found")),
                ),
            },
            BackendCommand::NodeCommand { node_id, command } => {
                let node_command = ManagerToNodeMessage::NodeCommand(NodeCommand { node_id, command });
                match node_manager.send_command_to_node(node_id, node_command) {
                    Ok(envelope) => CommandOutcome::Deliver { node_id, envelope },
                    Err(e) => {
                        let head = numbered_text("Failed to send command to node ", node_id, ": ");
                        CommandOutcome::Reply(BackendResponse::Failure(concat(head.as_str(), e.as_str())))
                    },
                }
            },
            BackendCommand::BroadcastCommand { command } => {
                let node_command = ManagerToNodeMessage::NodeCommand(NodeCommand { node_id: 0, command });
                let broadcast = node_manager.broadcast_command(node_command);
                CommandOutcome::Broadcast {
                    broadcast,
                    response: BackendResponse::Success {
                        message: Some("Command broadcast to all nodes".to_owned()),
                        data: None,
                    },
                }
            },
            BackendCommand::GetNodesByStatus { status } => {
                let nodes = node_manager.get_nodes_by_status(status);
                let head = numbered_text("Retrieved ", nodes.len() as u64, " nodes with status ");
                let name = status.name();
                CommandOutcome::Reply(
                    BackendResponse::Success {
                        message: Some(concat(head.as_str(), name.as_str())),
                        data: Some(ResponseData::Nodes(nodes)),
                    },
                )
            },
            BackendCommand::GetNodeCount => {
                let count = node_manager.node_count() as u64;
                CommandOutcome::Reply(
                    BackendResponse::Success {
                        message: Some(numbered_text("Total nodes: ", count, "")),
                        data: Some(ResponseData::Count(count)),
                    },
                )
            },
            BackendCommand::RemoveNode { node_id } => match node_manager.remove_node(node_id) {
                Some(_) => CommandOutcome::ReplyAndClose {
                    response: BackendResponse::Success {
                        message: Some(numbered_text("Node ", node_id, " removed")),
                        data: None,
                    },
                    node_id,
                },
                None => CommandOutcome::Reply(
                    BackendResponse::Failure(numbered_text("Node ", node_id, " not found")),
                ),
            },
            BackendCommand::GetActiveConnections => {
                let count = node_manager.active_connections() as u64;
                CommandOutcome::Reply(
                    BackendResponse::Success {
                        message: Some(numbered_text("Active connections: ", count, "")),
                        data: Some(ResponseData::Count(count)),
                    },
                )
            },
        }
    }

    /// The response to a command once the attempt to write it to the node is
    /// over.
    pub fn delivery_response(node_id: u64, written: Result<(), String>) -> (r: BackendResponse)
        ensures
            match written {
                Ok(()) => success(r, numbered("Command sent to node "@, node_id as nat, ""@), None),
                Err(e) => failure(r, command_failed(node_id, send_failure(e@))),
            },
    {
        match written {
            Ok(()) => BackendResponse::Success {
                message: Some(numbered_text("Command sent to node ", node_id, "")),
                data: None,
            },
            Err(e) => {
                let head = numbered_text("Failed to send command to node ", node_id, ": ");
                let reason = concat("Failed to send command: ", e.as_str());
                BackendResponse::Failure(concat(head.as_str(), reason.as_str()))
            },
        }
    }

    /// The backends of the given type, each once.
    pub fn get_backends_by_type(&self, backend_type: &BackendType) -> (r: Vec<Backend>)
        requires
            self.wf(),
        ensures
            forall|b: Backend|
                r@.contains(b) <==> (self.backend_map().contains_key(b.id)
                    && self.backend_map()[b.id] == b && same_backend_type(b.backend_type, *backend_type)),
            r@.no_duplicates(),
    {
        let mut r: Vec<Backend> = Vec::new();
        let entries = self.backends.iter();
        let ghost pairs = entries.remaining();
        assert(pairs.no_duplicates());
        for p in it: entries
            invariant
                self.wf(),
                it.seq() == pairs,
                pairs == vstd::std_specs::hash::spec_hash_map_iter(&self.backends).remaining(),
                pairs.no_duplicates(),
                forall|b: Backend|
                    r@.contains(b) <==> exists|i: int|
                        0 <= i < it.index() && *(#[trigger] pairs[i]).1 == b && same_backend_type(
                            b.backend_type,
                            *backend_type,
                        ),
                r@.no_duplicates(),
        {
            let (k, b) = p;
            let ghost idx = it.index() as int;
            proof {
                assert(pairs[idx] == p);
                assert(self.backends@.contains_key(*k) && self.backends@[*k] == *b);
            }
            if b.backend_type.same_as(backend_type) {
                let ghost before = r@;
                proof {
                    if before.contains(*b) {
                        let i = choose|i: int|
                            0 <= i < idx && *(#[trigger] pairs[i]).1 == *b && same_backend_type(
                                b.backend_type,
                                *backend_type,
                            );
                        assert(self.backends@.contains_key(*pairs[i].0));
                        assert(pairs[i] == pairs[idx]);
                    }
                }
                let c = b.clone();
                r.push(c);
                assert forall|m: Backend| #[trigger] r@.contains(m) implies exists|i: int|
                    0 <= i < idx + 1 && *(#[trigger] pairs[i]).1 == m && same_backend_type(
                        m.backend_type,
                        *backend_type,
                    ) by {
                    let j = choose|j: int| 0 <= j < r@.len() && r@[j] == m;
                    if j < before.len() {
                        assert(before[j] == m);
                        assert(before.contains(m));
                    } else {
                        assert(*pairs[idx].1 == m);
                    }
                }
                assert forall|m: Backend|
                    (exists|i: int|
                        0 <= i < idx + 1 && *(#[trigger] pairs[i]).1 == m && same_backend_type(
                            m.backend_type,
                            *backend_type,
                        )) implies #[trigger] r@.contains(m) by {
                    let i = choose|i: int|
                        0 <= i < idx + 1 && *(#[trigger] pairs[i]).1 == m && same_backend_type(
                            m.backend_type,
                            *backend_type,
                        );
                    if i < idx {
                        assert(before.contains(m));
                        let j = choose|j: int| 0 <= j < before.len() && before[j] == m;
                        assert(r@[j] == m);
                    } else {
                        assert(r@[before.len() as int] == m);
                    }
                }
            } else {
                assert forall|m: Backend|
                    (exists|i: int|
                        0 <= i < idx + 1 && *(#[trigger] pairs[i]).1 == m && same_backend_type(
                            m.backend_type,
                            *backend_type,
                        )) implies #[trigger] r@.contains(m) by {
                    let i = choose|i: int|
                        0 <= i < idx + 1 && *(#[trigger] pairs[i]).1 == m && same_backend_type(
                            m.backend_type,
                            *backend_type,
                        );
                    assert(i != idx);
                }
            }
        }
        proof {
            assert forall|b: Backend|
                (self.backend_map().contains_key(b.id) && self.backend_map()[b.id] == b
                    && same_backend_type(b.backend_type, *backend_type)) implies r@.contains(b) by {
                assert(pairs.contains((&b.id, &self.backends@[b.id])));
                let i = choose|i: int|
                    0 <= i < pairs.len() && pairs[i] == (&b.id, &self.backends@[b.id]);
                assert(*pairs[i].1 == b);
            }
            assert forall|b: Backend| r@.contains(b) implies (self.backend_map().contains_key(b.id)
                && self.backend_map()[b.id] == b && same_backend_type(b.backend_type, *backend_type)) by {
                let i = choose|i: int|
                    0 <= i < pairs.len() && *(#[trigger] pairs[i]).1 == b && same_backend_type(
                        b.backend_type,
                        *backend_type,
                    );
                assert(self.backends@.contains_key(*pairs[i].0));
            }
        }
        r
    }
}

} // verus!
