//! The node that starts a flow: its command fires its event.

use vstd::prelude::*;

use crate::graph::schema::node::{Node, NodeView};
use crate::graph::schema::property::PropertyView;

verus! {

pub const ID: &'static str = "action";

pub const COMMAND_TRIGGER: &'static str = "trigger";

pub const EVENT_TRIGGERED: &'static str = "triggered";

/// The template as declared.
pub open spec fn template() -> NodeView {
    NodeView {
        id: ID@,
        properties: seq![
            PropertyView::Command { id: COMMAND_TRIGGER@ },
            PropertyView::Event { id: EVENT_TRIGGERED@ },
        ],
    }
}

pub fn get() -> (node: Node)
    ensures
        node@ == template(),
        node@.wf(),
{
    proof {
        reveal_strlit("trigger");
        reveal_strlit("triggered");
        assert(COMMAND_TRIGGER@.len() == 7 && EVENT_TRIGGERED@.len() == 9);
    }
    let mut builder = Node::builder(ID);
    builder.command(COMMAND_TRIGGER);
    builder.event(EVENT_TRIGGERED);
    let node = builder.build();
    proof {
        assert(node@.properties =~= template().properties);
    }
    node
}

} // verus!
