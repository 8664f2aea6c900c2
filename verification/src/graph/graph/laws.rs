//! What holds of every graph builder, whatever is asked of it and in whatever order.
//!
//! The builder's operations are stated as functions on its model in the parent
//! module: for each operation the reason why it is refused, if it is, and the
//! model after it. The theorems here are about those functions, and through the
//! contracts of [`GraphBuilder`](super::GraphBuilder) about the operations themselves.

use vstd::prelude::*;

use crate::graph::error::GraphErrorKind;
use crate::graph::graph::edge::{edge_key, hook_key};
use crate::graph::graph::placed_node::PlacedNodeView;
use crate::graph::graph::{legal_wiring, GraphBuilderView};
use crate::graph::schema::SchemaView;
use crate::graph::value::ValueView;

verus! {

/// One call of an operation of the graph builder, by its arguments.
pub enum BuilderCall {
    /// Place an instance of the template `id` under `key`.
    Node { id: Seq<char>, key: Seq<char> },
    /// Bind `value` to the property `property_id` of the instance `key`.
    Assign { key: Seq<char>, property_id: Seq<char>, value: ValueView },
    /// Draw an edge between two properties of two instances.
    Connect {
        source_key: Seq<char>,
        source_property_id: Seq<char>,
        target_key: Seq<char>,
        target_property_id: Seq<char>,
    },
}

impl GraphBuilderView {
    /// Whether the builder, as it stands, carries out `call`.
    pub open spec fn succeeds(self, call: BuilderCall) -> bool {
        match call {
            BuilderCall::Node { id, key } => self.node_error(id, key) is None,
            BuilderCall::Assign { key, property_id, value } => self.assign_error(
                key,
                property_id,
                value,
            ) is None,
            BuilderCall::Connect {
                source_key,
                source_property_id,
                target_key,
                target_property_id,
            } => self.connect_error(source_key, source_property_id, target_key, target_property_id)
                is None,
        }
    }

    /// The builder after `call`.
    pub open spec fn after(self, call: BuilderCall) -> GraphBuilderView {
        match call {
            BuilderCall::Node { id, key } => self.after_node(id, key),
            BuilderCall::Assign { key, property_id, value } => self.after_assign(
                key,
                property_id,
                value,
            ),
            BuilderCall::Connect {
                source_key,
                source_property_id,
                target_key,
                target_property_id,
            } => self.after_connect(source_key, source_property_id, target_key, target_property_id),
        }
    }

    /// The builder after `calls`, one after the other.
    pub open spec fn after_all(self, calls: Seq<BuilderCall>) -> GraphBuilderView
        decreases calls.len(),
    {
        if calls.len() == 0 {
            self
        } else {
            self.after_all(calls.drop_last()).after(calls.last())
        }
    }

    /// How many of `calls` placed an instance.
    pub open spec fn placed(self, calls: Seq<BuilderCall>) -> nat
        decreases calls.len(),
    {
        if calls.len() == 0 {
            0
        } else {
            let earlier = self.placed(calls.drop_last());
            if calls.last() is Node && self.after_all(calls.drop_last()).succeeds(calls.last()) {
                earlier + 1
            } else {
                earlier
            }
        }
    }

    /// How many of `calls` drew an edge.
    pub open spec fn connected(self, calls: Seq<BuilderCall>) -> nat
        decreases calls.len(),
    {
        if calls.len() == 0 {
            0
        } else {
            let earlier = self.connected(calls.drop_last());
            if calls.last() is Connect && self.after_all(calls.drop_last()).succeeds(calls.last()) {
                earlier + 1
            } else {
                earlier
            }
        }
    }

    /// Whether one of `calls` bound a value to the property `property_id` of the
    /// instance `key`.
    pub open spec fn assigned(
        self,
        calls: Seq<BuilderCall>,
        key: Seq<char>,
        property_id: Seq<char>,
    ) -> bool
        decreases calls.len(),
    {
        if calls.len() == 0 {
            false
        } else {
            ||| self.assigned(calls.drop_last(), key, property_id)
            ||| {
                &&& calls.last() matches BuilderCall::Assign { key: k, property_id: p, .. }
                &&& k == key
                &&& p == property_id
                &&& self.after_all(calls.drop_last()).succeeds(calls.last())
            }
        }
    }

    /// Whether the property `property_id` of the instance `key` is an input that
    /// declares no default value and to which none of `calls` bound a value.
    pub open spec fn unbound_input(
        self,
        calls: Seq<BuilderCall>,
        key: Seq<char>,
        property_id: Seq<char>,
    ) -> bool {
        let built = self.after_all(calls);
        &&& built.graph.has_hook(key, property_id)
        &&& built.graph.property(key, property_id) is Input
        &&& built.graph.property(key, property_id).default_value() is None
        &&& !self.assigned(calls, key, property_id)
    }

    /// Placing an instance keeps the builder valid; it adds one instance where it
    /// succeeds and changes nothing where it fails, and never touches the edges.
    pub proof fn lemma_after_node(self, id: Seq<char>, key: Seq<char>)
        requires
            self.wf(),
        ensures
            self.after_node(id, key).wf(),
            self.after_node(id, key).schema == self.schema,
            self.after_node(id, key).graph.edge_map == self.graph.edge_map,
            self.node_error(id, key) is None ==> self.after_node(id, key).graph.nodes.len()
                == self.graph.nodes.len() + 1,
            self.node_error(id, key) is Some ==> self.after_node(id, key) == self,
            forall|other: Seq<char>|
                self.graph.has_node(other) ==> #[trigger] self.after_node(id, key).graph.has_node(
                    other,
                ),
    {
        if self.node_error(id, key) is None {
            self.schema.lemma_node_wf(id);
            PlacedNodeView::lemma_placed(self.schema.node(id), key);
            self.graph.lemma_with_node(PlacedNodeView::placed(self.schema.node(id), key));
        }
    }

    /// Binding a value keeps the builder valid, and changes neither the number
    /// of instances nor the edges.
    pub proof fn lemma_after_assign(self, key: Seq<char>, property_id: Seq<char>, value: ValueView)
        requires
            self.wf(),
        ensures
            self.after_assign(key, property_id, value).wf(),
            self.after_assign(key, property_id, value).schema == self.schema,
            self.after_assign(key, property_id, value).graph.edge_map == self.graph.edge_map,
            self.after_assign(key, property_id, value).graph.node_keys() == self.graph.node_keys(),
            self.assign_error(key, property_id, value) is Some ==> self.after_assign(
                key,
                property_id,
                value,
            ) == self,
    {
        if self.assign_error(key, property_id, value) is None {
            self.graph.lemma_with_value(key, property_id, value);
        }
    }

    /// Drawing an edge keeps the builder valid; it adds one edge where it
    /// succeeds and changes nothing where it fails, and never touches the
    /// instances.
    pub proof fn lemma_after_connect(
        self,
        source_key: Seq<char>,
        source_property_id: Seq<char>,
        target_key: Seq<char>,
        target_property_id: Seq<char>,
    )
        requires
            self.wf(),
        ensures
            self.after_connect(source_key, source_property_id, target_key, target_property_id).wf(),
            self.after_connect(
                source_key,
                source_property_id,
                target_key,
                target_property_id,
            ).schema == self.schema,
            self.after_connect(
                source_key,
                source_property_id,
                target_key,
                target_property_id,
            ).graph.nodes == self.graph.nodes,
            self.connect_error(source_key, source_property_id, target_key, target_property_id)
                is None ==> {
                &&& self.after_connect(
                    source_key,
                    source_property_id,
                    target_key,
                    target_property_id,
                ).graph.edge_map.edges.len() == self.graph.edge_map.edges.len() + 1
                &&& self.after_connect(
                    source_key,
                    source_property_id,
                    target_key,
                    target_property_id,
                ).graph.edge_map.contains_key(
                    edge_key(
                        hook_key(source_key, source_property_id),
                        hook_key(target_key, target_property_id),
                    ),
                )
            },
            self.connect_error(source_key, source_property_id, target_key, target_property_id)
                is Some ==> self.after_connect(
                source_key,
                source_property_id,
                target_key,
                target_property_id,
            ) == self,
    {
        if self.connect_error(source_key, source_property_id, target_key, target_property_id)
            is None {
            let edge = self.edge_between(
                source_key,
                source_property_id,
                target_key,
                target_property_id,
            );
            self.graph.lemma_node(source_key);
            self.graph.lemma_node(target_key);
            self.graph.node(source_key).node.lemma_property(source_property_id);
            self.graph.node(target_key).node.lemma_property(target_property_id);
            assert(self.graph.edge_valid(edge));
            self.graph.lemma_with_edge(edge);
            self.graph.edge_map.lemma_with_edge(edge);
        }
    }

    /// Any call keeps the builder valid and its schema unchanged.
    pub proof fn lemma_after(self, call: BuilderCall)
        requires
            self.wf(),
        ensures
            self.after(call).wf(),
            self.after(call).schema == self.schema,
            !self.succeeds(call) ==> self.after(call) == self,
            forall|key: Seq<char>|
                self.graph.has_node(key) ==> #[trigger] self.after(call).graph.has_node(key),
    {
        match call {
            BuilderCall::Node { id, key } => self.lemma_after_node(id, key),
            BuilderCall::Assign { key, property_id, value } => self.lemma_after_assign(
                key,
                property_id,
                value,
            ),
            BuilderCall::Connect {
                source_key,
                source_property_id,
                target_key,
                target_property_id,
            } => {
                self.lemma_after_connect(
                    source_key,
                    source_property_id,
                    target_key,
                    target_property_id,
                );
                assert(self.after(call).graph.node_keys() == self.graph.node_keys());
            },
        }
    }

    /// A key can be used once: after an instance has been placed under `key`, be
    /// it by this call or before it, any further attempt to place one under the
    /// same key fails with `DuplicateKey` and changes nothing.
    pub proof fn lemma_key_taken(self, id: Seq<char>, key: Seq<char>, again: Seq<char>)
        requires
            self.node_error(id, key) != Some(GraphErrorKind::UnknownTemplate),
        ensures
            self.after_node(id, key).node_error(again, key) == Some(GraphErrorKind::DuplicateKey),
            self.after_node(id, key).after_node(again, key) == self.after_node(id, key),
    {
        if self.node_error(id, key) is None {
            let keys = self.graph.node_keys();
            assert(self.after_node(id, key).graph.node_keys() =~= keys.push(key));
            crate::graph::keys::lemma_push_fresh(keys, key);
        }
    }

    /// Under a key that is still free, a template that the schema does not
    /// declare is refused with `UnknownTemplate`, and nothing is placed.
    pub proof fn lemma_unknown_template(self, id: Seq<char>, key: Seq<char>)
        requires
            !self.graph.has_node(key),
            !self.schema.has_node(id),
        ensures
            self.node_error(id, key) == Some(GraphErrorKind::UnknownTemplate),
            self.after_node(id, key) == self,
    {
    }

    /// Between two properties that exist, on two different instances, an edge
    /// that does not exist yet is drawn exactly if the wiring is legal.
    pub proof fn lemma_connect_iff_legal(
        self,
        source_key: Seq<char>,
        source_property_id: Seq<char>,
        target_key: Seq<char>,
        target_property_id: Seq<char>,
    )
        requires
            self.graph.has_hook(source_key, source_property_id),
            self.graph.has_hook(target_key, target_property_id),
            source_key != target_key,
            !self.graph.edge_map.contains_key(
                edge_key(
                    hook_key(source_key, source_property_id),
                    hook_key(target_key, target_property_id),
                ),
            ),
        ensures
            self.connect_error(source_key, source_property_id, target_key, target_property_id)
                is None <==> legal_wiring(
                self.graph.property(source_key, source_property_id),
                self.graph.property(target_key, target_property_id),
            ),
    {
    }

    /// An edge can be drawn once: after it has been drawn, be it by this call or
    /// before it, the edge map contains it, and the attempt to draw it again fails
    /// with `DuplicateEdge` and changes nothing.
    pub proof fn lemma_connect_twice(
        self,
        source_key: Seq<char>,
        source_property_id: Seq<char>,
        target_key: Seq<char>,
        target_property_id: Seq<char>,
    )
        requires
            self.connect_error(source_key, source_property_id, target_key, target_property_id)
                is None || self.connect_error(
                source_key,
                source_property_id,
                target_key,
                target_property_id,
            ) == Some(GraphErrorKind::DuplicateEdge),
        ensures
            self.after_connect(
                source_key,
                source_property_id,
                target_key,
                target_property_id,
            ).graph.edge_map.contains_key(
                edge_key(
                    hook_key(source_key, source_property_id),
                    hook_key(target_key, target_property_id),
                ),
            ),
            self.after_connect(
                source_key,
                source_property_id,
                target_key,
                target_property_id,
            ).connect_error(source_key, source_property_id, target_key, target_property_id) == Some(
                GraphErrorKind::DuplicateEdge,
            ),
            self.after_connect(
                source_key,
                source_property_id,
                target_key,
                target_property_id,
            ).after_connect(source_key, source_property_id, target_key, target_property_id)
                == self.after_connect(
                source_key,
                source_property_id,
                target_key,
                target_property_id,
            ),
    {
        if self.connect_error(source_key, source_property_id, target_key, target_property_id)
            is None {
            let edge = self.edge_between(
                source_key,
                source_property_id,
                target_key,
                target_property_id,
            );
            let after = self.after_connect(
                source_key,
                source_property_id,
                target_key,
                target_property_id,
            );
            self.graph.lemma_node(source_key);
            self.graph.lemma_node(target_key);
            self.graph.node(source_key).node.lemma_property(source_property_id);
            self.graph.node(target_key).node.lemma_property(target_property_id);
            let keys = self.graph.edge_map.keys();
            assert(after.graph.edge_map.keys() =~= keys.push(edge.key()));
            crate::graph::keys::lemma_push_fresh(keys, edge.key());
            assert(after.graph.node_keys() == self.graph.node_keys());
        }
    }

    /// A refused edge leaves the edges as they were; so does in particular one
    /// between an output and an input of different data types, which is refused
    /// with `TypeMismatch`.
    pub proof fn lemma_refused_edge(
        self,
        source_key: Seq<char>,
        source_property_id: Seq<char>,
        target_key: Seq<char>,
        target_property_id: Seq<char>,
    )
        requires
            self.connect_error(source_key, source_property_id, target_key, target_property_id)
                is Some,
        ensures
            self.after_connect(
                source_key,
                source_property_id,
                target_key,
                target_property_id,
            ).graph.edge_map == self.graph.edge_map,
            self.graph.has_hook(source_key, source_property_id) && self.graph.has_hook(
                target_key,
                target_property_id,
            ) && source_key != target_key && self.graph.property(source_key, source_property_id)
                is Output && self.graph.property(target_key, target_property_id) is Input
                && self.graph.property(source_key, source_property_id).data_type()
                != self.graph.property(target_key, target_property_id).data_type()
                ==> self.connect_error(
                source_key,
                source_property_id,
                target_key,
                target_property_id,
            ) == Some(GraphErrorKind::TypeMismatch),
    {
    }

    /// After any calls on a fresh builder, the graph is valid and holds as many
    /// instances as calls placed one, and as many edges as calls drew one.
    pub proof fn lemma_counts(schema: SchemaView, calls: Seq<BuilderCall>)
        requires
            schema.wf(),
        ensures
            Self::empty(schema).after_all(calls).wf(),
            Self::empty(schema).after_all(calls).schema == schema,
            Self::empty(schema).after_all(calls).graph.nodes.len() == Self::empty(schema).placed(
                calls,
            ),
            Self::empty(schema).after_all(calls).graph.edge_map.edges.len() == Self::empty(
                schema,
            ).connected(calls),
        decreases calls.len(),
    {
        let fresh = Self::empty(schema);
        if calls.len() == 0 {
            assert(fresh.graph.node_keys() =~= Seq::empty());
            assert(fresh.graph.edge_map.keys() =~= Seq::empty());
        } else {
            Self::lemma_counts(schema, calls.drop_last());
            let before = fresh.after_all(calls.drop_last());
            before.lemma_after(calls.last());
            match calls.last() {
                BuilderCall::Node { id, key } => {
                    before.lemma_after_node(id, key);
                },
                BuilderCall::Assign { key, property_id, value } => {
                    before.lemma_after_assign(key, property_id, value);
                    assert(before.after_assign(key, property_id, value).graph.nodes.len()
                        == before.after_assign(key, property_id, value).graph.node_keys().len());
                    assert(before.graph.nodes.len() == before.graph.node_keys().len());
                },
                BuilderCall::Connect {
                    source_key,
                    source_property_id,
                    target_key,
                    target_property_id,
                } => {
                    before.lemma_after_connect(
                        source_key,
                        source_property_id,
                        target_key,
                        target_property_id,
                    );
                },
            }
        }
    }

    /// Whether, after `calls`, a value is bound to the property `property_id` of
    /// the instance `key` exactly if the property declares a default value or
    /// one of the calls bound a value to it.
    pub open spec fn bound_as_called(
        self,
        calls: Seq<BuilderCall>,
        key: Seq<char>,
        property_id: Seq<char>,
    ) -> bool {
        let built = self.after_all(calls);
        built.graph.node(key).has_value(property_id) <==> {
            ||| built.graph.has_hook(key, property_id) && built.graph.property(
                key,
                property_id,
            ).default_value() is Some
            ||| self.assigned(calls, key, property_id)
        }
    }

    /// One more call keeps the values as the calls made them: the step of
    /// [`lemma_bound_values`](GraphBuilderView::lemma_bound_values), for one
    /// property of one instance.
    proof fn lemma_bound_step(
        schema: SchemaView,
        calls: Seq<BuilderCall>,
        key: Seq<char>,
        property_id: Seq<char>,
    )
        requires
            schema.wf(),
            calls.len() > 0,
            Self::empty(schema).after_all(calls.drop_last()).wf(),
            Self::empty(schema).after_all(calls.drop_last()).schema == schema,
            forall|k: Seq<char>, p: Seq<char>| #[trigger]
                Self::empty(schema).assigned(calls.drop_last(), k, p) ==> Self::empty(
                    schema,
                ).after_all(calls.drop_last()).graph.has_node(k),
            forall|k: Seq<char>, p: Seq<char>|
                Self::empty(schema).after_all(calls.drop_last()).graph.has_node(k)
                    ==> #[trigger] Self::empty(schema).bound_as_called(calls.drop_last(), k, p),
            Self::empty(schema).after_all(calls).graph.has_node(key),
        ensures
            Self::empty(schema).bound_as_called(calls, key, property_id),
    {
        let fresh = Self::empty(schema);
        let earlier = calls.drop_last();
        let before = fresh.after_all(earlier);
        let built = fresh.after_all(calls);
        before.lemma_after(calls.last());
        if before.succeeds(calls.last()) {
            match calls.last() {
                BuilderCall::Node { id, key: placed_key } => {
                    let placed = PlacedNodeView::placed(before.schema.node(id), placed_key);
                    before.schema.lemma_node_wf(id);
                    PlacedNodeView::lemma_placed(before.schema.node(id), placed_key);
                    before.graph.lemma_with_node(placed);
                    if key == placed_key {
                        assert(built.graph.node(key) == placed);
                        assert(!fresh.assigned(earlier, key, property_id));
                    } else {
                        assert(built.graph.node(key) == before.graph.node(key));
                        assert(fresh.bound_as_called(earlier, key, property_id));
                    }
                },
                BuilderCall::Assign { key: assigned_key, property_id: assigned_id, value } => {
                    before.graph.lemma_with_value(assigned_key, assigned_id, value);
                    before.graph.node(assigned_key).lemma_with_value(assigned_id, value);
                    assert(before.graph.has_node(key));
                    assert(fresh.bound_as_called(earlier, key, property_id));
                    if key == assigned_key {
                        assert(built.graph.node(key) == before.graph.node(key).with_value(
                            assigned_id,
                            value,
                        ));
                    } else {
                        assert(built.graph.node(key) == before.graph.node(key));
                    }
                },
                BuilderCall::Connect {
                    source_key,
                    source_property_id,
                    target_key,
                    target_property_id,
                } => {
                    before.lemma_after_connect(
                        source_key,
                        source_property_id,
                        target_key,
                        target_property_id,
                    );
                    assert(built.graph.node_keys() == before.graph.node_keys());
                    assert(built.graph.node(key) == before.graph.node(key));
                    assert(fresh.bound_as_called(earlier, key, property_id));
                },
            }
        } else {
            assert(built == before);
            assert(fresh.bound_as_called(earlier, key, property_id));
        }
    }

    /// After any calls on a fresh builder, a value is bound to a property of an
    /// instance exactly if the property declares a default value or one of the
    /// calls bound a value to it. Values are bound on placed instances only.
    pub proof fn lemma_bound_values(schema: SchemaView, calls: Seq<BuilderCall>)
        requires
            schema.wf(),
        ensures
            forall|key: Seq<char>, property_id: Seq<char>| #[trigger]
                Self::empty(schema).assigned(calls, key, property_id) ==> Self::empty(
                    schema,
                ).after_all(calls).graph.has_node(key),
            forall|key: Seq<char>, property_id: Seq<char>|
                Self::empty(schema).after_all(calls).graph.has_node(key)
                    ==> #[trigger] Self::empty(schema).bound_as_called(calls, key, property_id),
        decreases calls.len(),
    {
        let fresh = Self::empty(schema);
        let built = fresh.after_all(calls);
        if calls.len() == 0 {
            assert(fresh.graph.node_keys() =~= Seq::empty());
        } else {
            let earlier = calls.drop_last();
            let before = fresh.after_all(earlier);
            Self::lemma_bound_values(schema, earlier);
            Self::lemma_counts(schema, earlier);
            before.lemma_after(calls.last());
            assert forall|key: Seq<char>, property_id: Seq<char>| #[trigger]
                fresh.assigned(calls, key, property_id) implies built.graph.has_node(key) by {
                if fresh.assigned(earlier, key, property_id) {
                    assert(before.graph.has_node(key));
                } else {
                    assert(before.graph.has_hook(key, property_id));
                }
                assert(built.graph.has_node(key));
            }
            assert forall|key: Seq<char>, property_id: Seq<char>|
                built.graph.has_node(key) implies #[trigger] fresh.bound_as_called(
                calls,
                key,
                property_id,
            ) by {
                Self::lemma_bound_step(schema, calls, key, property_id);
            }
        }
    }

    /// After any calls on a fresh builder, the graph is complete, so that
    /// `build` succeeds, exactly if an edge leads to every input that declares no
    /// default value and to which no call bound a value.
    pub proof fn lemma_complete(schema: SchemaView, calls: Seq<BuilderCall>)
        requires
            schema.wf(),
        ensures
            Self::empty(schema).after_all(calls).graph.is_complete() <==> forall|
                key: Seq<char>,
                property_id: Seq<char>,
            | #[trigger]
                Self::empty(schema).unbound_input(calls, key, property_id) ==> Self::empty(
                    schema,
                ).after_all(calls).graph.edge_map.feeds(hook_key(key, property_id)),
    {
        let fresh = Self::empty(schema);
        let built = fresh.after_all(calls);
        Self::lemma_counts(schema, calls);
        Self::lemma_bound_values(schema, calls);
        if !built.graph.is_complete() {
            let (i, j) = choose|i: int, j: int| built.graph.unsatisfied(i, j);
            let node = built.graph.nodes[i];
            let property = node.node.properties[j];
            built.graph.lemma_node_at(i);
            assert(node.node.property_ids()[j] == property.id());
            crate::graph::keys::lemma_first_unique(node.node.property_ids(), j);
            assert(fresh.bound_as_called(calls, node.key, property.id()));
            assert(fresh.unbound_input(calls, node.key, property.id()));
        }
        if exists|key: Seq<char>, property_id: Seq<char>| #[trigger]
            fresh.unbound_input(calls, key, property_id) && !built.graph.edge_map.feeds(
                hook_key(key, property_id),
            ) {
            let (key, property_id) = choose|key: Seq<char>, property_id: Seq<char>| #[trigger]
                fresh.unbound_input(calls, key, property_id) && !built.graph.edge_map.feeds(
                    hook_key(key, property_id),
                );
            built.graph.lemma_node(key);
            let i = crate::graph::keys::first_index(built.graph.node_keys(), key);
            let node = built.graph.nodes[i];
            node.node.lemma_property(property_id);
            crate::graph::keys::lemma_first_exists(node.node.property_ids(), property_id);
            let j = crate::graph::keys::first_index(node.node.property_ids(), property_id);
            assert(fresh.bound_as_called(calls, key, property_id));
            assert(built.graph.unsatisfied(i, j));
        }
    }

    /// Where no input is left to an edge alone, `build` fails exactly if some
    /// input declares no default value and had no value bound by any call.
    ///
    /// An input without a bound value does not make `build` fail where an edge
    /// leads to it; the graphs that are complete by such an edge are left out.
    pub proof fn lemma_incomplete_iff_unbound(schema: SchemaView, calls: Seq<BuilderCall>)
        requires
            schema.wf(),
            !(Self::empty(schema).after_all(calls).graph.is_complete() && exists|
                key: Seq<char>,
                property_id: Seq<char>,
            | #[trigger] Self::empty(schema).unbound_input(calls, key, property_id)),
        ensures
            !Self::empty(schema).after_all(calls).graph.is_complete() <==> exists|
                key: Seq<char>,
                property_id: Seq<char>,
            | #[trigger] Self::empty(schema).unbound_input(calls, key, property_id),
    {
        Self::lemma_complete(schema, calls);
    }
}

} // verus!
