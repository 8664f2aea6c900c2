//! The node that prints its input when told to.

use vstd::prelude::*;

use crate::graph::schema::node::{Node, NodeView};
use crate::graph::schema::property::PropertyView;
use crate::graph::value::DataType;

verus! {

pub const ID: &'static str = "printer";

pub const COMMAND_PRINT: &'static str = "print";

pub const INPUT_CONTENT: &'static str = "content";

/// The template as declared.
pub open spec fn template() -> NodeView {
    NodeView {
        id: ID@,
        properties: seq![
            PropertyView::Command { id: COMMAND_PRINT@ },
            PropertyView::Input {
                id: INPUT_CONTENT@,
                data_type: DataType::Integer,
                default_value: None,
            },
        ],
    }
}

pub fn get() -> (node: Node)
    ensures
        node@ == template(),
        node@.wf(),
{
    proof {
        reveal_strlit("print");
        reveal_strlit("content");
        assert(COMMAND_PRINT@.len() == 5 && INPUT_CONTENT@.len() == 7);
    }
    let mut builder = Node::builder(ID);
    builder.command(COMMAND_PRINT);
    builder.input(INPUT_CONTENT, DataType::Integer);
    let node = builder.build();
    proof {
        assert(node@.properties =~= template().properties);
    }
    node
}

} // verus!
