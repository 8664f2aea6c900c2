//! Contains up-to-date schema.

use vstd::prelude::*;

use crate::engine::library::basic::{
    action, integer, lemma_ids_distinct, minus, plus, printer, repeat,
};
use crate::graph::schema::{Schema, SchemaView};

verus! {

/// The schema that [`get`] returns.
pub open spec fn supported() -> SchemaView {
    SchemaView {
        nodes: seq![
            action::template(),
            repeat::template(),
            printer::template(),
            plus::template(),
            minus::template(),
            integer::template(),
        ],
    }
}

/// Returns a `Schema` supported by current implementation of the engine.
pub fn get() -> (schema: Schema)
    ensures
        schema@ == supported(),
        schema@.wf(),
{
    proof {
        lemma_ids_distinct();
        let ids = seq![action::ID@, repeat::ID@, printer::ID@, plus::ID@, minus::ID@, integer::ID@];
        assert(ids[0] == action::ID@ && ids[1] == repeat::ID@ && ids[2] == printer::ID@ && ids[3]
            == plus::ID@ && ids[4] == minus::ID@ && ids[5] == integer::ID@);
    }
    let mut builder = Schema::builder();
    builder.node(action::get());
    builder.node(repeat::get());
    builder.node(printer::get());
    builder.node(plus::get());
    builder.node(minus::get());
    builder.node(integer::get());
    let schema = builder.build();
    proof {
        assert(schema@.nodes =~= supported().nodes);
    }
    schema
}

} // verus!
