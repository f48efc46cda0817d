use vstd::prelude::*;

use crate::message::common::{MessageEnvelope, NodeStatus, PROTOCOL_VERSION};
use crate::message::node::manager_to_node::{ManagerToNodeMessage, RegistrationAck};
use crate::message::node_to_manager::{NodeRegistration, NodeToManagerMessage};

verus! {

/// A honeypot node registered with the manager. The TCP stream of a
/// connected node is held beside the registry; `writer_attached` and
/// `reader_attached` say whether its two halves are there.
pub struct Node {
    pub id: u64,
    pub name: String,
    pub status: NodeStatus,
    pub writer_attached: bool,
    pub reader_attached: bool,
}

impl Clone for Node {
    fn clone(&self) -> (r: Self)
        ensures
            r == *self,
    {
        Node {
            id: self.id,
            name: self.name.clone(),
            status: self.status,
            writer_attached: self.writer_attached,
            reader_attached: self.reader_attached,
        }
    }
}

/// What reading one message from a node's stream gave.
pub enum Received<T> {
    /// The peer closed the connection (the read returned no bytes).
    Closed,
    /// Reading or parsing failed with this error text.
    Failed(String),
    /// A message was read and parsed.
    Message(T),
}

/// The node as it is after `disconnect`.
pub open spec fn disconnected(n: Node) -> Node {
    Node { writer_attached: false, status: NodeStatus::Stopped, ..n }
}

/// The acknowledgement that a node's registration was accepted.
pub open spec fn is_registration_ack(m: ManagerToNodeMessage, node_id: u64) -> bool {
    match m {
        ManagerToNodeMessage::RegistrationAck(ack) => {
            &&& ack.node_id == node_id
            &&& ack.accepted
            &&& ack.message matches Some(t) && t@ == "Registration successful"@
        },
        _ => false,
    }
}

/// The node after it has handled a message it sent: a status update for
/// this node sets its status; any other message leaves it as it is.
pub open spec fn after_message(n: Node, msg: NodeToManagerMessage) -> Node {
    match msg {
        NodeToManagerMessage::NodeStatusUpdate(u) => if u.node_id == n.id {
            Node { status: u.status, ..n }
        } else {
            n
        },
        _ => n,
    }
}

impl Node {
    /// A node that has just connected: it is running (the node statuses have
    /// none for "connected") and has no stream yet.
    pub fn new(id: u64, name: String) -> (n: Self)
        ensures
            n.id == id,
            n.name == name,
            n.status == NodeStatus::Running,
            !n.writer_attached,
            !n.reader_attached,
    {
        Node { id, name, status: NodeStatus::Running, writer_attached: false, reader_attached: false }
    }

    /// Attaches the node's TCP stream, split into its read and write halves.
    pub fn set_stream(&mut self)
        ensures
            *final(self) == (Node { writer_attached: true, reader_attached: true, ..*old(self) }),
    {
        self.writer_attached = true;
        self.reader_attached = true;
    }

    /// The acknowledgement of this node's registration, ready to be sent.
    pub fn send_registration_ack(&mut self) -> (r: Result<MessageEnvelope<ManagerToNodeMessage>, String>)
        ensures
            *final(self) == *old(self),
            match r {
                Ok(e) => old(self).writer_attached && e.version == PROTOCOL_VERSION
                    && is_registration_ack(e.message, old(self).id),
                Err(t) => !old(self).writer_attached && t@ == "No writer available"@,
            },
    {
        let ack = ManagerToNodeMessage::RegistrationAck(
            RegistrationAck {
                node_id: self.id,
                accepted: true,
                message: Some("Registration successful".to_owned()),
            },
        );
        self.send_message(ack)
    }

    /// The envelope in which `message` is written to the node's stream, or
    /// the error when the node has no writer.
    pub fn send_message(&mut self, message: ManagerToNodeMessage) -> (r: Result<
        MessageEnvelope<ManagerToNodeMessage>,
        String,
    >)
        ensures
            *final(self) == *old(self),
            match r {
                Ok(e) => old(self).writer_attached && e.version == PROTOCOL_VERSION && e.message
                    == message,
                Err(t) => !old(self).writer_attached && t@ == "No writer available"@,
            },
    {
        if !self.writer_attached {
            return Err("No writer available".to_owned());
        }
        Ok(MessageEnvelope::new(PROTOCOL_VERSION, message))
    }

    /// The message read from the node's stream, or why there is none.
    pub fn read_message(&self, received: Received<MessageEnvelope<NodeToManagerMessage>>) -> (r:
        Result<MessageEnvelope<NodeToManagerMessage>, String>)
        ensures
            !self.reader_attached ==> (r matches Err(t) && t@ == "No reader available"@),
            self.reader_attached ==> match received {
                Received::Closed => (r matches Err(t) && t@ == "Connection closed"@),
                Received::Failed(e) => r == Err::<MessageEnvelope<NodeToManagerMessage>, String>(
                    e,
                ),
                Received::Message(m) => r == Ok::<MessageEnvelope<NodeToManagerMessage>, String>(
                    m,
                ),
            },
    {
        if !self.reader_attached {
            return Err("No reader available".to_owned());
        }
        match received {
            Received::Closed => Err("Connection closed".to_owned()),
            Received::Failed(e) => Err(e),
            Received::Message(m) => Ok(m),
        }
    }

    /// Drops the node's writer (the stream is then shut down) and marks the
    /// node stopped. Returns whether there was a writer to shut down.
    pub fn disconnect(&mut self) -> (had_writer: bool)
        ensures
            had_writer == old(self).writer_attached,
            *final(self) == disconnected(*old(self)),
    {
        let had_writer = self.writer_attached;
        self.writer_attached = false;
        self.status = NodeStatus::Stopped;
        had_writer
    }

    /// Handles a message the node sent after its registration.
    pub fn handle_message(&mut self, msg: NodeToManagerMessage)
        ensures
            *final(self) == after_message(*old(self), msg),
    {
        match msg {
            NodeToManagerMessage::NodeStatusUpdate(u) => {
                if u.node_id == self.id {
                    self.status = u.status;
                }
            },
            _ => {},
        }
    }
}

/// The node that a registration describes: running, no stream yet.
pub open spec fn node_of(reg: NodeRegistration) -> Node {
    Node {
        id: reg.node_id,
        name: reg.node_name,
        status: NodeStatus::Running,
        writer_attached: false,
        reader_attached: false,
    }
}

impl From<NodeRegistration> for Node {
    fn from(reg: NodeRegistration) -> (n: Self) {
        Node::new(reg.node_id, reg.node_name)
    }
}

impl vstd::std_specs::convert::FromSpecImpl<NodeRegistration> for Node {
    open spec fn obeys_from_spec() -> bool {
        true
    }

    open spec fn from_spec(reg: NodeRegistration) -> Self {
        node_of(reg)
    }
}

} // verus!
