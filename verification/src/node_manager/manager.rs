use vstd::prelude::*;

use std::collections::{HashMap, HashSet};
use vstd::std_specs::iter::IteratorSpec;

use crate::message::common::{MessageEnvelope, NodeStatus, PROTOCOL_VERSION};
use crate::message::node::manager_to_node::ManagerToNodeMessage;
use crate::message::node_to_manager::NodeToManagerMessage;
use crate::node_manager::node::{after_message, disconnected, node_of, Node, Received};
use crate::text::{chars_of, concat, decimal, decimal_text, find_chars_from, find_first};

verus! {

/// The manager's registry of nodes, keyed by node id, and the ids of the
/// nodes whose message handler is running.
pub struct NodeManager {
    nodes: HashMap<u64, Node>,
    tasks: HashSet<u64>,
}

/// A message that reaches each node of a broadcast that has a writer.
pub struct Broadcast {
    pub envelope: MessageEnvelope<ManagerToNodeMessage>,
    /// nodes to which the envelope is written
    pub recipients: Vec<u64>,
    /// nodes that have no writer, so that nothing is sent to them
    pub unreachable: Vec<u64>,
}

/// What reading the next message of a registered node's connection gave.
pub enum NodeReadStep {
    Message(MessageEnvelope<NodeToManagerMessage>),
    /// The node is no longer in the registry.
    NotRegistered,
    /// The node closed its connection.
    ConnectionClosed,
    /// Reading failed with this error text.
    ReadFailed(String),
}

/// What the message handler of a node does with a message it read.
pub enum NodeLoopStep {
    /// The message was handled; read the next one.
    Continue,
    /// The node asked to disconnect.
    Disconnect,
    /// The node is no longer in the registry.
    Stop,
}

/// The text `Node <id> not found`.
pub open spec fn node_not_found(id: u64) -> Seq<char> {
    "Node "@ + decimal(id as nat) + " not found"@
}

/// The text with which a failed send of a command is reported.
pub open spec fn send_failure(e: Seq<char>) -> Seq<char> {
    "Failed to send command: "@ + e
}

impl NodeManager {
    /// The registered nodes, by id.
    pub closed spec fn node_map(&self) -> Map<u64, Node> {
        self.nodes@
    }

    /// The ids of the nodes whose message handler runs.
    pub closed spec fn task_ids(&self) -> Set<u64> {
        self.tasks@
    }

    /// Every node is filed under its own id.
    pub closed spec fn wf(&self) -> bool {
        forall|k: u64| #[trigger] self.nodes@.contains_key(k) ==> self.nodes@[k].id == k
    }

    pub proof fn lemma_wf(&self)
        requires
            self.wf(),
        ensures
            forall|k: u64| #[trigger]
                self.node_map().contains_key(k) ==> self.node_map()[k].id == k,
            self.node_map().dom().finite(),
            self.node_map().len() <= usize::MAX,
            self.task_ids().len() <= usize::MAX,
    {
        assert(vstd::std_specs::hash::spec_hash_map_len(&self.nodes) == self.nodes@.len());
        assert(vstd::std_specs::hash::spec_hash_set_len(&self.tasks) == self.tasks@.len());
    }

    pub fn new() -> (m: Self)
        ensures
            m.wf(),
            m.node_map() == Map::<u64, Node>::empty(),
            m.task_ids() == Set::<u64>::empty(),
    {
        NodeManager { nodes: HashMap::new(), tasks: HashSet::new() }
    }

    /// Files a node under its id, replacing any node with that id.
    pub fn register(&mut self, node: Node)
        requires
            old(self).wf(),
        ensures
            final(self).wf(),
            final(self).node_map() == old(self).node_map().insert(node.id, node),
            final(self).task_ids() == old(self).task_ids(),
    {
        let id = node.id;
        self.nodes.insert(id, node);
    }

    /// Records that the message handler of a node runs.
    pub fn track_task(&mut self, node_id: u64)
        requires
            old(self).wf(),
        ensures
            final(self).wf(),
            final(self).node_map() == old(self).node_map(),
            final(self).task_ids() == old(self).task_ids().insert(node_id),
    {
        self.tasks.insert(node_id);
    }

    /// The ids of all registered nodes, each once.
    pub fn get_nodes(&self) -> (r: Vec<u64>)
        requires
            self.wf(),
        ensures
            r@.to_set() == self.node_map().dom(),
            r@.no_duplicates(),
    {
        let mut r: Vec<u64> = Vec::new();
        for k in it: self.nodes.keys()
            invariant
                it.seq() == vstd::std_specs::hash::spec_keys_iter(&self.nodes).remaining(),
                r@ == it.seq().take(it.index() as int).map_values(|x: &u64| *x),
        {
            r.push(*k);
            assert(r@ =~= it.seq().take(it.index() + 1).map_values(|x: &u64| *x));
        }
        proof {
            let s = vstd::std_specs::hash::spec_keys_iter(&self.nodes).remaining();
            assert(r@ =~= s.map_values(|x: &u64| *x));
            assert(s.unref() =~= s.map_values(|x: &u64| *x));
        }
        r
    }

    /// The number of nodes whose message handler runs.
    pub fn active_connections(&self) -> (n: usize)
        ensures
            n == self.task_ids().len(),
    {
        self.tasks.len()
    }

    /// The node registered under `node_id`, if any.
    pub fn get_node(&self, node_id: u64) -> (r: Option<Node>)
        ensures
            r == self.node_map().get(node_id),
    {
        match self.nodes.get(&node_id) {
            Some(n) => Some(n.clone()),
            None => None,
        }
    }

    /// Removes a node from the registry and disconnects it; its message
    /// handler is stopped. Returns the removed node.
    pub fn remove_node(&mut self, node_id: u64) -> (r: Option<Node>)
        requires
            old(self).wf(),
        ensures
            final(self).wf(),
            final(self).node_map() == old(self).node_map().remove(node_id),
            final(self).task_ids() == old(self).task_ids().remove(node_id),
            r == (match old(self).node_map().get(node_id) {
                Some(n) => Some(disconnected(n)),
                None => None,
            }),
    {
        let mut node = self.nodes.remove(&node_id);
        match &mut node {
            Some(n) => {
                n.disconnect();
            },
            None => {},
        }
        self.tasks.remove(&node_id);
        node
    }

    /// The registered nodes that have the given status, each once.
    pub fn get_nodes_by_status(&self, status: NodeStatus) -> (r: Vec<Node>)
        requires
            self.wf(),
        ensures
            forall|n: Node|
                r@.contains(n) <==> (self.node_map().contains_key(n.id) && self.node_map()[n.id]
                    == n && n.status == status),
            r@.no_duplicates(),
    {
        let mut r: Vec<Node> = Vec::new();
        let entries = self.nodes.iter();
        let ghost pairs = entries.remaining();
        assert(pairs.no_duplicates());
        for p in it: entries
            invariant
                self.wf(),
                it.seq() == pairs,
                pairs == vstd::std_specs::hash::spec_hash_map_iter(&self.nodes).remaining(),
                pairs.no_duplicates(),
                forall|n: Node|
                    r@.contains(n) <==> exists|i: int|
                        0 <= i < it.index() && *(#[trigger] pairs[i]).1 == n && n.status == status,
                r@.no_duplicates(),
        {
            let (k, n) = p;
            let ghost idx = it.index() as int;
            proof {
                assert(pairs[idx] == p);
                assert(self.nodes@.contains_key(*k) && self.nodes@[*k] == *n);
            }
            if n.status == status {
                let ghost before = r@;
                proof {
                    if before.contains(*n) {
                        let i = choose|i: int|
                            0 <= i < idx && *(#[trigger] pairs[i]).1 == *n && n.status == status;
                        assert(self.nodes@.contains_key(*pairs[i].0));
                        assert(*pairs[i].0 == n.id);
                        assert(*k == n.id);
                        assert(pairs[i] == pairs[idx]);
                    }
                }
                let c = n.clone();
                r.push(c);
                assert(r@ == before.push(*n));
                assert forall|m: Node| #[trigger] r@.contains(m) implies exists|i: int|
                    0 <= i < idx + 1 && *(#[trigger] pairs[i]).1 == m && m.status == status by {
                    let j = choose|j: int| 0 <= j < r@.len() && r@[j] == m;
                    if j < before.len() {
                        assert(before[j] == m);
                        assert(before.contains(m));
                    } else {
                        assert(*pairs[idx].1 == m);
                    }
                }
                assert forall|m: Node|
                    (exists|i: int| 0 <= i < idx + 1 && *(#[trigger] pairs[i]).1 == m && m.status
                        == status) implies #[trigger] r@.contains(m) by {
                    let i = choose|i: int|
                        0 <= i < idx + 1 && *(#[trigger] pairs[i]).1 == m && m.status == status;
                    if i < idx {
                        assert(before.contains(m));
                        let j = choose|j: int| 0 <= j < before.len() && before[j] == m;
                        assert(r@[j] == m);
                    } else {
                        assert(r@[before.len() as int] == m);
                    }
                }
            } else {
                assert forall|m: Node|
                    (exists|i: int| 0 <= i < idx + 1 && *(#[trigger] pairs[i]).1 == m && m.status
                        == status) implies #[trigger] r@.contains(m) by {
                    let i = choose|i: int|
                        0 <= i < idx + 1 && *(#[trigger] pairs[i]).1 == m && m.status == status;
                    assert(i != idx);
                }
            }
        }
        proof {
            assert forall|n: Node|
                (self.node_map().contains_key(n.id) && self.node_map()[n.id] == n && n.status
                    == status) implies r@.contains(n) by {
                assert(pairs.contains((&n.id, &self.nodes@[n.id])));
                let i = choose|i: int|
                    0 <= i < pairs.len() && pairs[i] == (&n.id, &self.nodes@[n.id]);
                assert(*pairs[i].1 == n);
            }
            assert forall|n: Node| r@.contains(n) implies (self.node_map().contains_key(n.id)
                && self.node_map()[n.id] == n && n.status == status) by {
                let i = choose|i: int|
                    0 <= i < pairs.len() && *(#[trigger] pairs[i]).1 == n && n.status == status;
                assert(self.nodes@.contains_key(*pairs[i].0));
            }
        }
        r
    }

    /// The envelope of a command to be sent to every node, with the nodes it
    /// is written to (those with a writer) and those it cannot reach.
    pub fn broadcast_command(&self, command: ManagerToNodeMessage) -> (b: Broadcast)
        requires
            self.wf(),
        ensures
            b.envelope.version == PROTOCOL_VERSION,
            b.envelope.message == command,
            forall|id: u64|
                b.recipients@.contains(id) <==> (self.node_map().contains_key(id)
                    && self.node_map()[id].writer_attached),
            forall|id: u64|
                b.unreachable@.contains(id) <==> (self.node_map().contains_key(id)
                    && !self.node_map()[id].writer_attached),
            b.recipients@.no_duplicates(),
            b.unreachable@.no_duplicates(),
    {
        let mut recipients: Vec<u64> = Vec::new();
        let mut unreachable: Vec<u64> = Vec::new();
        let entries = self.nodes.iter();
        let ghost pairs = entries.remaining();
        assert(pairs.no_duplicates());
        for p in it: entries
            invariant
                self.wf(),
                it.seq() == pairs,
                pairs == vstd::std_specs::hash::spec_hash_map_iter(&self.nodes).remaining(),
                pairs.no_duplicates(),
                forall|id: u64|
                    recipients@.contains(id) <==> exists|i: int|
                        0 <= i < it.index() && *(#[trigger] pairs[i]).0 == id
                            && pairs[i].1.writer_attached,
                forall|id: u64|
                    unreachable@.contains(id) <==> exists|i: int|
                        0 <= i < it.index() && *(#[trigger] pairs[i]).0 == id
                            && !pairs[i].1.writer_attached,
                recipients@.no_duplicates(),
                unreachable@.no_duplicates(),
        {
            let (k, n) = p;
            let ghost idx = it.index() as int;
            proof {
                assert(pairs[idx] == p);
                assert(self.nodes@.contains_key(*k) && self.nodes@[*k] == *n);
                assert forall|i: int| 0 <= i < idx && *(#[trigger] pairs[i]).0 == *k implies false by {
                    assert(self.nodes@.contains_key(*pairs[i].0));
                    assert(pairs[i] == pairs[idx]);
                }
            }
            let ghost before_r = recipients@;
            let ghost before_u = unreachable@;
            proof {
                if before_r.contains(*k) {
                    let i = choose|i: int|
                        0 <= i < idx && *(#[trigger] pairs[i]).0 == *k && pairs[i].1.writer_attached;
                }
                if before_u.contains(*k) {
                    let i = choose|i: int|
                        0 <= i < idx && *(#[trigger] pairs[i]).0 == *k && !pairs[i].1.writer_attached;
                }
            }
            if n.writer_attached {
                recipients.push(*k);
                assert forall|id: u64| #[trigger] recipients@.contains(id) implies exists|i: int|
                    0 <= i < idx + 1 && *(#[trigger] pairs[i]).0 == id && pairs[i].1.writer_attached by {
                    let j = choose|j: int| 0 <= j < recipients@.len() && recipients@[j] == id;
                    if j < before_r.len() {
                        assert(before_r[j] == id);
                        assert(before_r.contains(id));
                    } else {
                        assert(*pairs[idx].0 == id);
                    }
                }
                assert forall|id: u64|
                    (exists|i: int| 0 <= i < idx + 1 && *(#[trigger] pairs[i]).0 == id
                        && pairs[i].1.writer_attached) implies #[trigger] recipients@.contains(id) by {
                    let i = choose|i: int|
                        0 <= i < idx + 1 && *(#[trigger] pairs[i]).0 == id && pairs[i].1.writer_attached;
                    if i < idx {
                        assert(before_r.contains(id));
                        let j = choose|j: int| 0 <= j < before_r.len() && before_r[j] == id;
                        assert(recipients@[j] == id);
                    } else {
                        assert(recipients@[before_r.len() as int] == id);
                    }
                }
                assert forall|id: u64|
                    (exists|i: int| 0 <= i < idx + 1 && *(#[trigger] pairs[i]).0 == id
                        && !pairs[i].1.writer_attached) implies #[trigger] unreachable@.contains(id) by {
                    let i = choose|i: int|
                        0 <= i < idx + 1 && *(#[trigger] pairs[i]).0 == id && !pairs[i].1.writer_attached;
                    assert(i != idx);
                }
            } else {
                unreachable.push(*k);
                assert forall|id: u64| #[trigger] unreachable@.contains(id) implies exists|i: int|
                    0 <= i < idx + 1 && *(#[trigger] pairs[i]).0 == id && !pairs[i].1.writer_attached by {
                    let j = choose|j: int| 0 <= j < unreachable@.len() && unreachable@[j] == id;
                    if j < before_u.len() {
                        assert(before_u[j] == id);
                        assert(before_u.contains(id));
                    } else {
                        assert(*pairs[idx].0 == id);
                    }
                }
                assert forall|id: u64|
                    (exists|i: int| 0 <= i < idx + 1 && *(#[trigger] pairs[i]).0 == id
                        && !pairs[i].1.writer_attached) implies #[trigger] unreachable@.contains(id) by {
                    let i = choose|i: int|
                        0 <= i < idx + 1 && *(#[trigger] pairs[i]).0 == id && !pairs[i].1.writer_attached;
                    if i < idx {
                        assert(before_u.contains(id));
                        let j = choose|j: int| 0 <= j < before_u.len() && before_u[j] == id;
                        assert(unreachable@[j] == id);
                    } else {
                        assert(unreachable@[before_u.len() as int] == id);
                    }
                }
                assert forall|id: u64|
                    (exists|i: int| 0 <= i < idx + 1 && *(#[trigger] pairs[i]).0 == id
                        && pairs[i].1.writer_attached) implies #[trigger] recipients@.contains(id) by {
                    let i = choose|i: int|
                        0 <= i < idx + 1 && *(#[trigger] pairs[i]).0 == id && pairs[i].1.writer_attached;
                    assert(i != idx);
                }
            }
        }
        proof {
            assert forall|id: u64|
                (self.node_map().contains_key(id) && self.node_map()[id].writer_attached) implies recipients@.contains(id) by {
                assert(pairs.contains((&id, &self.nodes@[id])));
                let i = choose|i: int| 0 <= i < pairs.len() && pairs[i] == (&id, &self.nodes@[id]);
                assert(*pairs[i].0 == id);
            }
            assert forall|id: u64|
                (self.node_map().contains_key(id) && !self.node_map()[id].writer_attached) implies unreachable@.contains(id) by {
                assert(pairs.contains((&id, &self.nodes@[id])));
                let i = choose|i: int| 0 <= i < pairs.len() && pairs[i] == (&id, &self.nodes@[id]);
                assert(*pairs[i].0 == id);
            }
            assert forall|id: u64| recipients@.contains(id) implies (self.node_map().contains_key(id)
                && self.node_map()[id].writer_attached) by {
                let i = choose|i: int|
                    0 <= i < pairs.len() && *(#[trigger] pairs[i]).0 == id && pairs[i].1.writer_attached;
                assert(self.nodes@.contains_key(*pairs[i].0));
            }
            assert forall|id: u64| unreachable@.contains(id) implies (self.node_map().contains_key(id)
                && !self.node_map()[id].writer_attached) by {
                let i = choose|i: int|
                    0 <= i < pairs.len() && *(#[trigger] pairs[i]).0 == id && !pairs[i].1.writer_attached;
                assert(self.nodes@.contains_key(*pairs[i].0));
            }
        }
        Broadcast { envelope: MessageEnvelope::new(PROTOCOL_VERSION, command), recipients, unreachable }
    }

    /// The envelope in which a command is written to a node, or why it cannot
    /// be sent.
    pub fn send_command_to_node(&self, node_id: u64, command: ManagerToNodeMessage) -> (r: Result<
        MessageEnvelope<ManagerToNodeMessage>,
        String,
    >)
        ensures
            match self.node_map().get(node_id) {
                None => r matches Err(t) && t@ == node_not_found(node_id),
                Some(n) => if n.writer_attached {
                    r matches Ok(e) && e.version == PROTOCOL_VERSION && e.message == command
                } else {
                    r matches Err(t) && t@ == send_failure("No writer available"@)
                },
            },
    {
        match self.nodes.get(&node_id) {
            None => {
                let t = concat("Node ", decimal_text(node_id).as_str());
                Err(concat(t.as_str(), " not found"))
            },
            Some(n) => {
                if n.writer_attached {
                    Ok(MessageEnvelope::new(PROTOCOL_VERSION, command))
                } else {
                    Err(send_failure_text("No writer available"))
                }
            },
        }
    }

    /// The node that a registration envelope announces, with its stream
    /// attached, or the error when the first message is not a registration.
    pub fn accept_registration(envelope: MessageEnvelope<NodeToManagerMessage>) -> (r: Result<
        Node,
        String,
    >)
        ensures
            match envelope.message {
                NodeToManagerMessage::NodeRegistration(reg) => r == Ok::<Node, String>(
                    Node { writer_attached: true, reader_attached: true, ..node_of(reg) },
                ),
                _ => r matches Err(t) && t@ == "Received unexpected message type during registration"@,
            },
    {
        match envelope.message {
            NodeToManagerMessage::NodeRegistration(reg) => {
                let mut node = Node::from(reg);
                node.set_stream();
                Ok(node)
            },
            _ => Err("Received unexpected message type during registration".to_owned()),
        }
    }

    /// What the next read of a node's connection gave.
    pub fn next_message(&self, node_id: u64, received: Received<MessageEnvelope<NodeToManagerMessage>>) -> (r: NodeReadStep)
        ensures
            match self.node_map().get(node_id) {
                None => r is NotRegistered,
                Some(n) => if !n.reader_attached {
                    r matches NodeReadStep::ReadFailed(t) && t@ == "No reader available"@
                } else {
                    match received {
                        Received::Closed => r is ConnectionClosed,
                        Received::Failed(e) => if find_first(e@, "Connection closed"@) is Some {
                            r is ConnectionClosed
                        } else {
                            r == NodeReadStep::ReadFailed(e)
                        },
                        Received::Message(m) => r == NodeReadStep::Message(m),
                    }
                },
            },
    {
        match self.nodes.get(&node_id) {
            None => NodeReadStep::NotRegistered,
            Some(n) => {
                if !n.reader_attached {
                    return NodeReadStep::ReadFailed("No reader available".to_owned());
                }
                match received {
                    Received::Closed => NodeReadStep::ConnectionClosed,
                    Received::Failed(e) => {
                        let text = chars_of(e.as_str());
                        let closed = chars_of("Connection closed");
                        if find_chars_from(&text, &closed, 0).is_some() {
                            NodeReadStep::ConnectionClosed
                        } else {
                            NodeReadStep::ReadFailed(e)
                        }
                    },
                    Received::Message(m) => NodeReadStep::Message(m),
                }
            },
        }
    }

    /// Handles a message a node sent after its registration.
    pub fn handle_node_message(&mut self, node_id: u64, msg: NodeToManagerMessage) -> (r: NodeLoopStep)
        requires
            old(self).wf(),
        ensures
            final(self).wf(),
            final(self).task_ids() == old(self).task_ids(),
            match msg {
                NodeToManagerMessage::NodeDrop => r is Disconnect && final(self).node_map() == old(self).node_map(),
                _ => match old(self).node_map().get(node_id) {
                    None => r is Stop && final(self).node_map() == old(self).node_map(),
                    Some(n) => r is Continue && final(self).node_map() == old(self).node_map().insert(
                        node_id,
                        after_message(n, msg),
                    ),
                },
            },
    {
        match msg {
            NodeToManagerMessage::NodeDrop => NodeLoopStep::Disconnect,
            msg => {
                match self.nodes.remove(&node_id) {
                    None => NodeLoopStep::Stop,
                    Some(mut n) => {
                        n.handle_message(msg);
                        self.nodes.insert(node_id, n);
                        NodeLoopStep::Continue
                    },
                }
            },
        }
    }

    /// The number of registered nodes.
    pub fn node_count(&self) -> (n: usize)
        ensures
            n == self.node_map().len(),
    {
        self.nodes.len()
    }
}

// ---------------------------------------------------------------------------
// Laws of the registry
// ---------------------------------------------------------------------------
/// A node that has been registered is found under its id, as it was
/// registered; the other ids find what they found before.
pub proof fn law_get_after_register(before: NodeManager, after: NodeManager, node: Node)
    requires
        after.node_map() == before.node_map().insert(node.id, node),
    ensures
        after.node_map().get(node.id) == Some(node),
        forall|id: u64| id != node.id ==> after.node_map().get(id) == before.node_map().get(id),
{
    assert forall|id: u64| id != node.id implies after.node_map().get(id) == before.node_map().get(
        id,
    ) by {
        if before.node_map().contains_key(id) {
            assert(after.node_map().contains_key(id));
        }
    }
}

/// Registering a node under a new id adds one to the count; under a known
/// id, the count stays.
pub proof fn law_count_after_register(before: NodeManager, after: NodeManager, node: Node)
    requires
        before.wf(),
        after.node_map() == before.node_map().insert(node.id, node),
    ensures
        after.node_map().len() == if before.node_map().contains_key(node.id) {
            before.node_map().len()
        } else {
            before.node_map().len() + 1
        },
{
    before.lemma_wf();
}

/// A removed node is no longer found, the count drops by one when it was
/// there, and what the removal returns is the node as it was, disconnected.
pub proof fn law_get_after_remove(before: NodeManager, after: NodeManager, id: u64, removed: Option<Node>)
    requires
        before.wf(),
        after.node_map() == before.node_map().remove(id),
        removed == (match before.node_map().get(id) {
            Some(n) => Some(disconnected(n)),
            None => None,
        }),
    ensures
        after.node_map().get(id) is None,
        before.node_map().contains_key(id) ==> after.node_map().len() == before.node_map().len() - 1
            && removed == Some(disconnected(before.node_map()[id])),
        !before.node_map().contains_key(id) ==> after.node_map() == before.node_map() && removed is None,
{
    before.lemma_wf();
    if !before.node_map().contains_key(id) {
        assert(before.node_map().remove(id) =~= before.node_map());
    }
}

/// Removing a node twice: the second removal finds nothing and changes
/// nothing.
pub proof fn law_remove_twice(before: NodeManager, middle: NodeManager, after: NodeManager, id: u64)
    requires
        middle.node_map() == before.node_map().remove(id),
        after.node_map() == middle.node_map().remove(id),
    ensures
        middle.node_map().get(id) is None,
        after.node_map() == middle.node_map(),
{
    assert(middle.node_map().remove(id) =~= middle.node_map());
}

/// A node that reports its own status has that status in the registry; the
/// other nodes are untouched.
pub proof fn law_status_update_tracked(before: NodeManager, after: NodeManager, id: u64, status: NodeStatus)
    requires
        before.wf(),
        before.node_map().contains_key(id),
        after.node_map() == before.node_map().insert(
            id,
            after_message(
                before.node_map()[id],
                NodeToManagerMessage::NodeStatusUpdate(
                    crate::message::node_to_manager::NodeStatusUpdate { node_id: id, status },
                ),
            ),
        ),
    ensures
        after.node_map()[id].status == status,
        after.node_map()[id].id == id,
        after.node_map()[id].name == before.node_map()[id].name,
        after.node_map().dom() == before.node_map().dom(),
        forall|k: u64| k != id && before.node_map().contains_key(k) ==> after.node_map()[k] == before.node_map()[k],
{
    before.lemma_wf();
    assert(after.node_map().dom() =~= before.node_map().dom());
}

/// Disconnecting a node twice is disconnecting it once.
pub proof fn law_disconnect_idempotent(n: Node)
    ensures
        disconnected(disconnected(n)) == disconnected(n),
{
}

/// The node a registration admits carries the registration's id and name,
/// runs, has its stream attached, and is acknowledged under that id.
pub proof fn law_registration_admits_node(reg: crate::message::node_to_manager::NodeRegistration, node: Node, ack: ManagerToNodeMessage)
    requires
        node == (Node { writer_attached: true, reader_attached: true, ..node_of(reg) }),
        crate::node_manager::node::is_registration_ack(ack, node.id),
    ensures
        node.id == reg.node_id,
        node.name == reg.node_name,
        node.status == NodeStatus::Running,
        ack matches ManagerToNodeMessage::RegistrationAck(a) && a.node_id == reg.node_id && a.accepted,
{
}

/// Whether an envelope carries the protocol version this manager speaks.
pub fn is_current_version(version: u64) -> (r: bool)
    ensures
        r == (version == PROTOCOL_VERSION),
{
    version == PROTOCOL_VERSION
}

/// How a failed send of a command is reported.
pub fn send_failure_text(e: &str) -> (r: String)
    ensures
        r@ == send_failure(e@),
{
    concat("Failed to send command: ", e)
}

} // verus!
