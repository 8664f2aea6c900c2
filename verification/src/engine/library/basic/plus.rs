//! The node whose output is the sum of its two inputs.

use vstd::prelude::*;

use crate::graph::schema::node::{Node, NodeView};
use crate::graph::schema::property::PropertyView;
use crate::graph::value::DataType;

verus! {

pub const ID: &'static str = "plus";

pub const INPUT_A: &'static str = "a";

pub const INPUT_B: &'static str = "b";

pub const OUTPUT_C: &'static str = "c";

/// The template as declared.
pub open spec fn template() -> NodeView {
    NodeView {
        id: ID@,
        properties: seq![
            PropertyView::Input { id: INPUT_A@, data_type: DataType::Integer, default_value: None },
            PropertyView::Input { id: INPUT_B@, data_type: DataType::Integer, default_value: None },
            PropertyView::Output { id: OUTPUT_C@, data_type: DataType::Integer },
        ],
    }
}

pub fn get() -> (node: Node)
    ensures
        node@ == template(),
        node@.wf(),
{
    proof {
        reveal_strlit("a");
        reveal_strlit("b");
        reveal_strlit("c");
        assert(INPUT_A@[0] == 'a' && INPUT_B@[0] == 'b' && OUTPUT_C@[0] == 'c');
    }
    let mut builder = Node::builder(ID);
    builder.input(INPUT_A, DataType::Integer);
    builder.input(INPUT_B, DataType::Integer);
    builder.output(OUTPUT_C, DataType::Integer);
    let node = builder.build();
    proof {
        assert(node@.properties =~= template().properties);
    }
    node
}

} // verus!
