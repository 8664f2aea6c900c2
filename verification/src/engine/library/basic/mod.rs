//! The node templates that the engine knows how to run.

use vstd::prelude::*;

use crate::graph::schema::{Schema, SchemaView};

pub mod action;
pub mod integer;
pub mod minus;
pub mod plus;
pub mod printer;
pub mod repeat;

verus! {

/// The six templates have six different ids.
pub proof fn lemma_ids_distinct()
    ensures
        seq![
            action::ID@,
            integer::ID@,
            minus::ID@,
            plus::ID@,
            printer::ID@,
            repeat::ID@,
        ].no_duplicates(),
        seq![
            action::ID@,
            repeat::ID@,
            printer::ID@,
            plus::ID@,
            minus::ID@,
            integer::ID@,
        ].no_duplicates(),
{
    reveal_strlit("action");
    reveal_strlit("integer");
    reveal_strlit("minus");
    reveal_strlit("plus");
    reveal_strlit("printer");
    reveal_strlit("repeat");
    assert(action::ID@.len() == 6 && action::ID@[0] == 'a');
    assert(integer::ID@.len() == 7 && integer::ID@[0] == 'i');
    assert(minus::ID@.len() == 5);
    assert(plus::ID@.len() == 4);
    assert(printer::ID@.len() == 7 && printer::ID@[0] == 'p');
    assert(repeat::ID@.len() == 6 && repeat::ID@[0] == 'r');
}

/// The catalog in the order in which the library declares it.
pub open spec fn catalog() -> SchemaView {
    SchemaView {
        nodes: seq![
            action::template(),
            integer::template(),
            minus::template(),
            plus::template(),
            printer::template(),
            repeat::template(),
        ],
    }
}

/// Builds the schema of the six templates.
pub fn schema() -> (schema: Schema)
    ensures
        schema@ == catalog(),
        schema@.wf(),
{
    proof {
        lemma_ids_distinct();
        let ids = seq![action::ID@, integer::ID@, minus::ID@, plus::ID@, printer::ID@, repeat::ID@];
        assert(ids[0] == action::ID@ && ids[1] == integer::ID@ && ids[2] == minus::ID@ && ids[3]
            == plus::ID@ && ids[4] == printer::ID@ && ids[5] == repeat::ID@);
    }
    let mut builder = Schema::builder();
    builder.node(action::get());
    builder.node(integer::get());
    builder.node(minus::get());
    builder.node(plus::get());
    builder.node(printer::get());
    builder.node(repeat::get());
    let schema = builder.build();
    proof {
        assert(schema@.nodes =~= catalog().nodes);
    }
    schema
}

} // verus!
