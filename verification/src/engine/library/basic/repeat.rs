//! The node that, once started, fires its event a number of times.

use vstd::prelude::*;

use crate::graph::schema::node::{Node, NodeView};
use crate::graph::schema::property::PropertyView;
use crate::graph::value::DataType;

verus! {

pub const ID: &'static str = "repeat";

pub const COMMAND_START: &'static str = "start";

pub const EVENT_EXECUTED: &'static str = "executed";

pub const INPUT_TIMES: &'static str = "times";

/// The template as declared.
pub open spec fn template() -> NodeView {
    NodeView {
        id: ID@,
        properties: seq![
            PropertyView::Command { id: COMMAND_START@ },
            PropertyView::Event { id: EVENT_EXECUTED@ },
            PropertyView::Input {
                id: INPUT_TIMES@,
                data_type: DataType::Integer,
                default_value: None,
            },
        ],
    }
}

pub fn get() -> (node: Node)
    ensures
        node@ == template(),
        node@.wf(),
{
    proof {
        reveal_strlit("start");
        reveal_strlit("executed");
        reveal_strlit("times");
        assert(COMMAND_START@.len() == 5 && EVENT_EXECUTED@.len() == 8 && INPUT_TIMES@.len() == 5);
        assert(COMMAND_START@[0] == 's' && INPUT_TIMES@[0] == 't');
    }
    let mut builder = Node::builder(ID);
    builder.command(COMMAND_START);
    builder.event(EVENT_EXECUTED);
    builder.input(INPUT_TIMES, DataType::Integer);
    let node = builder.build();
    proof {
        assert(node@.properties =~= template().properties);
    }
    node
}

} // verus!
