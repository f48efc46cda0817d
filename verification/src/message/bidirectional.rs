use vstd::prelude::*;

use crate::message::node::manager_to_node::ManagerToNodeMessage;
use crate::message::node_to_manager::NodeToManagerMessage;

verus! {

/// Core bidirectional message type supporting both directions
pub enum BidirectionalMessage {
    NodeToManager(NodeToManagerMessage),
    ManagerToNode(ManagerToNodeMessage),
}

impl From<NodeToManagerMessage> for BidirectionalMessage {
    fn from(msg: NodeToManagerMessage) -> (r: Self) {
        BidirectionalMessage::NodeToManager(msg)
    }
}

impl vstd::std_specs::convert::FromSpecImpl<NodeToManagerMessage> for BidirectionalMessage {
    open spec fn obeys_from_spec() -> bool {
        true
    }

    open spec fn from_spec(msg: NodeToManagerMessage) -> Self {
        BidirectionalMessage::NodeToManager(msg)
    }
}

impl From<ManagerToNodeMessage> for BidirectionalMessage {
    fn from(msg: ManagerToNodeMessage) -> (r: Self) {
        BidirectionalMessage::ManagerToNode(msg)
    }
}

impl vstd::std_specs::convert::FromSpecImpl<ManagerToNodeMessage> for BidirectionalMessage {
    open spec fn obeys_from_spec() -> bool {
        true
    }

    open spec fn from_spec(msg: ManagerToNodeMessage) -> Self {
        BidirectionalMessage::ManagerToNode(msg)
    }
}

} // verus!
