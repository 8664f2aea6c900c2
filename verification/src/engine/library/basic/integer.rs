//! The node that hands on an integer: its output is its input.

use vstd::prelude::*;

use crate::graph::schema::node::{Node, NodeView};
use crate::graph::schema::property::PropertyView;
use crate::graph::value::DataType;

verus! {

pub const ID: &'static str = "integer";

pub const INPUT_VALUE: &'static str = "value";

pub const OUTPUT_RETURN_VALUE: &'static str = "return-value";

/// The template as declared.
pub open spec fn template() -> NodeView {
    NodeView {
        id: ID@,
        properties: seq![
            PropertyView::Input {
                id: INPUT_VALUE@,
                data_type: DataType::Integer,
                default_value: None,
            },
            PropertyView::Output { id: OUTPUT_RETURN_VALUE@, data_type: DataType::Integer },
        ],
    }
}

pub fn get() -> (node: Node)
    ensures
        node@ == template(),
        node@.wf(),
{
    proof {
        reveal_strlit("value");
        reveal_strlit("return-value");
        assert(INPUT_VALUE@.len() == 5 && OUTPUT_RETURN_VALUE@.len() == 12);
    }
    let mut builder = Node::builder(ID);
    builder.input(INPUT_VALUE, DataType::Integer);
    builder.output(OUTPUT_RETURN_VALUE, DataType::Integer);
    let node = builder.build();
    proof {
        assert(node@.properties =~= template().properties);
    }
    node
}

} // verus!
