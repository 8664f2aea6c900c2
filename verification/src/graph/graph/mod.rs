//! Graph-based structure for representing computational flows.

use vstd::prelude::*;

use crate::graph::error::{GraphError, GraphErrorKind, GraphErrorView};
use crate::graph::graph::edge::{
    edge_key, edge_key_of, hook_key, hook_key_of, Edge, EdgeMap, EdgeMapView, EdgeView, Hook,
    HookView,
};
use crate::graph::graph::placed_node::{PlacedNode, PlacedNodeView};
use crate::graph::keys::{
    first_index, is_first, lemma_first_exists, lemma_first_index, lemma_first_unique,
    lemma_push_fresh,
};
use crate::graph::schema::property::PropertyView;
use crate::graph::schema::{Schema, SchemaView};
use crate::graph::value::{Value, ValueView};

pub mod edge;
pub mod laws;
pub mod placed_node;
pub mod property_value;

verus! {

/// Whether an edge may lead from `source` to `target`.
///
/// There are two legal wirings: an event to a command, and an output to an
/// input of the same data type.
pub open spec fn legal_wiring(source: PropertyView, target: PropertyView) -> bool {
    &&& source.is_target()
    &&& target.is_source()
    &&& (source is Event) == (target is Command)
    &&& source.is_data() ==> source.data_type() == target.data_type()
}

/// Represents a graph.
#[derive(Debug)]
pub struct Graph {
    /// Graph's nodes, in the order of their placement; no two share a key.
    pub nodes: Vec<PlacedNode>,
    /// Graph's edges.
    pub edge_map: EdgeMap,
}

/// Mathematical model of a [`Graph`].
pub struct GraphView {
    pub nodes: Seq<PlacedNodeView>,
    pub edge_map: EdgeMapView,
}

impl GraphView {
    /// The keys of the instances, in the order of their placement.
    pub open spec fn node_keys(self) -> Seq<Seq<char>> {
        self.nodes.map_values(|n: PlacedNodeView| n.key)
    }

    /// Whether an instance stands under this key.
    pub open spec fn has_node(self, key: Seq<char>) -> bool {
        self.node_keys().contains(key)
    }

    /// The instance under this key, where there is one.
    pub open spec fn node(self, key: Seq<char>) -> PlacedNodeView
        recommends
            self.has_node(key),
    {
        self.nodes[first_index(self.node_keys(), key)]
    }

    /// Whether the instance `key` exists and its template declares `property_id`.
    pub open spec fn has_hook(self, key: Seq<char>, property_id: Seq<char>) -> bool {
        self.has_node(key) && self.node(key).node.has_property(property_id)
    }

    /// The property `property_id` of the instance `key`, where it has one.
    pub open spec fn property(self, key: Seq<char>, property_id: Seq<char>) -> PropertyView
        recommends
            self.has_hook(key, property_id),
    {
        self.node(key).node.property(property_id)
    }

    /// The hook on the property `property_id` of the instance `key`.
    pub open spec fn hook(self, key: Seq<char>, property_id: Seq<char>) -> HookView
        recommends
            self.has_hook(key, property_id),
    {
        HookView { node: self.node(key), property: self.property(key, property_id) }
    }

    /// Whether `edge` joins two properties of two different instances of this
    /// graph by a legal wiring.
    pub open spec fn edge_valid(self, edge: EdgeView) -> bool {
        &&& self.has_hook(edge.source.node.key, edge.source.property.id())
        &&& self.property(edge.source.node.key, edge.source.property.id()) == edge.source.property
        &&& self.has_hook(edge.target.node.key, edge.target.property.id())
        &&& self.property(edge.target.node.key, edge.target.property.id()) == edge.target.property
        &&& edge.source.node.key != edge.target.node.key
        &&& legal_wiring(edge.source.property, edge.target.property)
    }

    /// No two instances share a key, every instance is valid, no two edges share
    /// a name, and every edge is valid in this graph.
    pub open spec fn wf(self) -> bool {
        &&& self.node_keys().no_duplicates()
        &&& forall|i: int| 0 <= i < self.nodes.len() ==> (#[trigger] self.nodes[i]).wf()
        &&& self.edge_map.wf()
        &&& forall|e: int|
            0 <= e < self.edge_map.edges.len() ==> self.edge_valid(
                #[trigger] self.edge_map.edges[e],
            )
    }

    /// Whether property `j` of instance `i` is an input that nothing satisfies:
    /// no value is bound to it and no edge leads to it.
    pub open spec fn unsatisfied(self, i: int, j: int) -> bool {
        &&& 0 <= i < self.nodes.len()
        &&& 0 <= j < self.nodes[i].node.properties.len()
        &&& self.nodes[i].node.properties[j] is Input
        &&& !self.nodes[i].has_value(self.nodes[i].node.properties[j].id())
        &&& !self.edge_map.feeds(
            hook_key(self.nodes[i].key, self.nodes[i].node.properties[j].id()),
        )
    }

    /// Every input of every instance is satisfied.
    pub open spec fn is_complete(self) -> bool {
        forall|i: int, j: int| !#[trigger] self.unsatisfied(i, j)
    }

    /// Whether property `j` of instance `i` is the first unsatisfied input, going
    /// through the instances in the order of their placement and through the
    /// properties of each in the order of their declaration.
    pub open spec fn first_unsatisfied(self, i: int, j: int) -> bool {
        &&& self.unsatisfied(i, j)
        &&& forall|a: int, b: int| a < i || (a == i && b < j) ==> !#[trigger] self.unsatisfied(a, b)
    }

    /// The error that names the unsatisfied input `j` of instance `i`.
    pub open spec fn missing_value(self, i: int, j: int) -> GraphErrorView {
        let key = self.nodes[i].key;
        let property_id = self.nodes[i].node.properties[j].id();
        GraphErrorView::report(
            GraphErrorKind::MissingValue,
            key,
            property_id,
            hook_key(key, property_id),
        )
    }

    /// The graph with one more instance, placed last.
    pub open spec fn with_node(self, placed: PlacedNodeView) -> GraphView {
        GraphView { nodes: self.nodes.push(placed), edge_map: self.edge_map }
    }

    /// The graph with one more edge, drawn last.
    pub open spec fn with_edge(self, edge: EdgeView) -> GraphView {
        GraphView {
            nodes: self.nodes,
            edge_map: EdgeMapView { edges: self.edge_map.edges.push(edge) },
        }
    }

    /// The graph after `value` has been bound to the property `property_id` of
    /// the instance `key`.
    pub open spec fn with_value(
        self,
        key: Seq<char>,
        property_id: Seq<char>,
        value: ValueView,
    ) -> GraphView {
        GraphView {
            nodes: self.nodes.update(
                first_index(self.node_keys(), key),
                self.node(key).with_value(property_id, value),
            ),
            edge_map: self.edge_map,
        }
    }

    /// The instance under a key of the graph stands under that key.
    pub proof fn lemma_node(self, key: Seq<char>)
        requires
            self.has_node(key),
        ensures
            is_first(self.node_keys(), key, first_index(self.node_keys(), key)),
            self.node(key).key == key,
            self.wf() ==> self.node(key).wf(),
    {
        lemma_first_exists(self.node_keys(), key);
    }

    /// Instance `i` of a valid graph is the instance under its own key.
    pub proof fn lemma_node_at(self, i: int)
        requires
            self.wf(),
            0 <= i < self.nodes.len(),
        ensures
            self.has_node(self.nodes[i].key),
            self.node(self.nodes[i].key) == self.nodes[i],
    {
        assert(self.node_keys()[i] == self.nodes[i].key);
        lemma_first_unique(self.node_keys(), i);
    }

    /// Placing an instance under a fresh key keeps the graph valid, adds exactly
    /// that key, and leaves the other instances as they were.
    pub proof fn lemma_with_node(self, placed: PlacedNodeView)
        requires
            self.wf(),
            placed.wf(),
            !self.has_node(placed.key),
        ensures
            self.with_node(placed).wf(),
            forall|key: Seq<char>| #[trigger]
                self.with_node(placed).has_node(key) <==> self.has_node(key) || key == placed.key,
            self.with_node(placed).node(placed.key) == placed,
            forall|key: Seq<char>|
                self.has_node(key) ==> #[trigger] self.with_node(placed).node(key) == self.node(key),
    {
        let after = self.with_node(placed);
        let keys = self.node_keys();
        assert(after.node_keys() =~= keys.push(placed.key));
        lemma_push_fresh(keys, placed.key);
        assert forall|key: Seq<char>| self.has_node(key) implies #[trigger] after.node(key)
            == self.node(key) by {
            self.lemma_node(key);
        }
        assert forall|e: int| 0 <= e < after.edge_map.edges.len() implies after.edge_valid(
            #[trigger] after.edge_map.edges[e],
        ) by {
            let edge = self.edge_map.edges[e];
            assert(self.edge_valid(edge));
        }
    }

    /// Binding a value on one instance keeps the graph valid and changes nothing
    /// but the values of that instance.
    pub proof fn lemma_with_value(self, key: Seq<char>, property_id: Seq<char>, value: ValueView)
        requires
            self.wf(),
            self.has_node(key),
        ensures
            self.with_value(key, property_id, value).wf(),
            self.with_value(key, property_id, value).node_keys() == self.node_keys(),
            self.with_value(key, property_id, value).node(key) == self.node(key).with_value(
                property_id,
                value,
            ),
            forall|other: Seq<char>|
                self.has_node(other) && other != key ==> #[trigger] self.with_value(
                    key,
                    property_id,
                    value,
                ).node(other) == self.node(other),
    {
        let after = self.with_value(key, property_id, value);
        let at = first_index(self.node_keys(), key);
        self.lemma_node(key);
        self.node(key).lemma_with_value(property_id, value);
        assert(after.node_keys() =~= self.node_keys());
        assert forall|other: Seq<char>| self.has_node(other) && other != key implies #[trigger] after.node(
            other,
        ) == self.node(other) by {
            self.lemma_node(other);
        }
        assert forall|other: Seq<char>| self.has_node(other) implies (#[trigger] after.node(
            other,
        )).node == self.node(other).node by {
            self.lemma_node(other);
        }
        assert forall|e: int| 0 <= e < after.edge_map.edges.len() implies after.edge_valid(
            #[trigger] after.edge_map.edges[e],
        ) by {
            let edge = self.edge_map.edges[e];
            assert(self.edge_valid(edge));
            assert(after.node(edge.source.node.key).node == self.node(edge.source.node.key).node);
            assert(after.node(edge.target.node.key).node == self.node(edge.target.node.key).node);
        }
    }

    /// Drawing a valid edge under a fresh name keeps the graph valid.
    pub proof fn lemma_with_edge(self, edge: EdgeView)
        requires
            self.wf(),
            self.edge_valid(edge),
            !self.edge_map.contains_key(edge.key()),
        ensures
            self.with_edge(edge).wf(),
            self.with_edge(edge).edge_map == self.edge_map.with_edge(edge),
    {
        self.edge_map.lemma_with_edge(edge);
        let after = self.with_edge(edge);
        assert forall|e: int| 0 <= e < after.edge_map.edges.len() implies after.edge_valid(
            #[trigger] after.edge_map.edges[e],
        ) by {
            if e < self.edge_map.edges.len() {
                assert(self.edge_valid(self.edge_map.edges[e]));
            }
        }
    }
}

impl View for Graph {
    type V = GraphView;

    open spec fn view(&self) -> GraphView {
        GraphView { nodes: self.nodes@.map_values(|n: PlacedNode| n@), edge_map: self.edge_map@ }
    }
}

impl Graph {
    /// Constructs a `GraphBuilder`.
    pub fn builder(schema: &Schema) -> (builder: GraphBuilder<'_>)
        ensures
            builder@ == GraphBuilderView::empty(schema@),
            schema@.wf() ==> builder@.wf(),
    {
        GraphBuilder::new(schema)
    }

    /// Position of the instance under this key among the graph's nodes.
    pub fn find_node(&self, key: &str) -> (found: Option<usize>)
        ensures
            match found {
                Some(i) => self@.has_node(key@) && is_first(self@.node_keys(), key@, i as int) && i
                    == first_index(self@.node_keys(), key@),
                None => !self@.has_node(key@),
            },
    {
        let wanted = key.to_owned();
        let mut i: usize = 0;
        while i < self.nodes.len()
            invariant
                i <= self.nodes.len(),
                wanted@ == key@,
                forall|j: int| 0 <= j < i ==> self@.node_keys()[j] != key@,
            decreases self.nodes.len() - i,
        {
            if self.nodes[i].key == wanted {
                proof {
                    assert(self@.node_keys()[i as int] == key@);
                    lemma_first_index(self@.node_keys(), key@, i as int);
                }
                return Some(i);
            }
            i += 1;
        }
        None
    }

    /// Returns whether an instance stands under this key.
    pub fn has_node(&self, key: &str) -> (placed: bool)
        ensures
            placed == self@.has_node(key@),
    {
        self.find_node(key).is_some()
    }

    /// Returns a `PlacedNode` by key.
    ///
    /// The graph has to contain an instance under the key.
    pub fn get_node(&self, key: &str) -> (placed: &PlacedNode)
        requires
            self@.has_node(key@),
        ensures
            placed@ == self@.node(key@),
    {
        match self.find_node(key) {
            Some(i) => {
                proof {
                    assert(self@.nodes[i as int] == self.nodes[i as int]@);
                }
                &self.nodes[i]
            },
            None => vstd::pervasive::unreached(),
        }
    }
}

impl Clone for Graph {
    fn clone(&self) -> (graph: Graph)
        ensures
            graph@ == self@,
    {
        let mut nodes: Vec<PlacedNode> = Vec::new();
        let mut i: usize = 0;
        while i < self.nodes.len()
            invariant
                i <= self.nodes.len(),
                nodes@.len() == i,
                forall|j: int| 0 <= j < i ==> nodes@[j]@ == self.nodes@[j]@,
            decreases self.nodes.len() - i,
        {
            nodes.push(self.nodes[i].clone());
            i += 1;
        }
        let graph = Graph { nodes, edge_map: self.edge_map.clone() };
        proof {
            assert(graph@.nodes =~= self@.nodes);
        }
        graph
    }
}

/// Mathematical model of a [`GraphBuilder`]: the schema it draws on, and the
/// graph as far as it has been put together.
pub struct GraphBuilderView {
    pub schema: SchemaView,
    pub graph: GraphView,
}

impl GraphBuilderView {
    /// The builder before anything has been placed.
    pub open spec fn empty(schema: SchemaView) -> GraphBuilderView {
        GraphBuilderView {
            schema,
            graph: GraphView { nodes: Seq::empty(), edge_map: EdgeMapView { edges: Seq::empty() } },
        }
    }

    /// The schema and the graph are valid.
    pub open spec fn wf(self) -> bool {
        self.schema.wf() && self.graph.wf()
    }

    /// Why an instance of the template `id` cannot be placed under `key`, if it cannot.
    pub open spec fn node_error(self, id: Seq<char>, key: Seq<char>) -> Option<GraphErrorKind> {
        if self.graph.has_node(key) {
            Some(GraphErrorKind::DuplicateKey)
        } else if !self.schema.has_node(id) {
            Some(GraphErrorKind::UnknownTemplate)
        } else {
            None
        }
    }

    /// The builder after the attempt to place an instance of `id` under `key`.
    pub open spec fn after_node(self, id: Seq<char>, key: Seq<char>) -> GraphBuilderView {
        if self.node_error(id, key) is None {
            GraphBuilderView {
                schema: self.schema,
                graph: self.graph.with_node(PlacedNodeView::placed(self.schema.node(id), key)),
            }
        } else {
            self
        }
    }

    /// The error reported where an instance of `id` cannot be placed under `key`.
    pub open spec fn node_report(
        kind: GraphErrorKind,
        id: Seq<char>,
        key: Seq<char>,
    ) -> GraphErrorView {
        GraphErrorView::report(
            kind,
            key,
            Seq::empty(),
            if kind == GraphErrorKind::DuplicateKey {
                key
            } else {
                id
            },
        )
    }

    /// Why `value` cannot be bound to the property `property_id` of the instance
    /// `key`, if it cannot.
    pub open spec fn assign_error(
        self,
        key: Seq<char>,
        property_id: Seq<char>,
        value: ValueView,
    ) -> Option<GraphErrorKind> {
        if !self.graph.has_hook(key, property_id) {
            Some(GraphErrorKind::UnknownProperty)
        } else if !self.graph.property(key, property_id).is_data() {
            Some(GraphErrorKind::NotADataProperty)
        } else if self.graph.property(key, property_id).data_type() != Some(value.data_type()) {
            Some(GraphErrorKind::TypeMismatch)
        } else {
            None
        }
    }

    /// The builder after the attempt to bind `value` to the property
    /// `property_id` of the instance `key`.
    pub open spec fn after_assign(
        self,
        key: Seq<char>,
        property_id: Seq<char>,
        value: ValueView,
    ) -> GraphBuilderView {
        if self.assign_error(key, property_id, value) is None {
            GraphBuilderView {
                schema: self.schema,
                graph: self.graph.with_value(key, property_id, value),
            }
        } else {
            self
        }
    }

    /// Why no edge can be drawn from the property `source_property_id` of the
    /// instance `source_key` to the property `target_property_id` of the instance
    /// `target_key`, if none can. The checks are made in this order.
    pub open spec fn connect_error(
        self,
        source_key: Seq<char>,
        source_property_id: Seq<char>,
        target_key: Seq<char>,
        target_property_id: Seq<char>,
    ) -> Option<GraphErrorKind> {
        let source = self.graph.property(source_key, source_property_id);
        let target = self.graph.property(target_key, target_property_id);
        if !self.graph.has_hook(source_key, source_property_id) || !self.graph.has_hook(
            target_key,
            target_property_id,
        ) {
            Some(GraphErrorKind::UnknownProperty)
        } else if source_key == target_key {
            Some(GraphErrorKind::SelfConnection)
        } else if !source.is_target() {
            Some(GraphErrorKind::InvalidSourceRole)
        } else if !target.is_source() {
            Some(GraphErrorKind::InvalidTargetRole)
        } else if source is Event && !(target is Command) {
            Some(GraphErrorKind::EventRequiresCommand)
        } else if target is Command && !(source is Event) {
            Some(GraphErrorKind::CommandRequiresEvent)
        } else if source.data_type() != target.data_type() {
            Some(GraphErrorKind::TypeMismatch)
        } else if self.graph.edge_map.contains_key(
            edge_key(
                hook_key(source_key, source_property_id),
                hook_key(target_key, target_property_id),
            ),
        ) {
            Some(GraphErrorKind::DuplicateEdge)
        } else {
            None
        }
    }

    /// The edge that a successful connection adds.
    pub open spec fn edge_between(
        self,
        source_key: Seq<char>,
        source_property_id: Seq<char>,
        target_key: Seq<char>,
        target_property_id: Seq<char>,
    ) -> EdgeView {
        EdgeView {
            source: self.graph.hook(source_key, source_property_id),
            target: self.graph.hook(target_key, target_property_id),
        }
    }

    /// The builder after the attempt to draw that edge.
    pub open spec fn after_connect(
        self,
        source_key: Seq<char>,
        source_property_id: Seq<char>,
        target_key: Seq<char>,
        target_property_id: Seq<char>,
    ) -> GraphBuilderView {
        if self.connect_error(source_key, source_property_id, target_key, target_property_id)
            is None {
            GraphBuilderView {
                schema: self.schema,
                graph: self.graph.with_edge(
                    self.edge_between(
                        source_key,
                        source_property_id,
                        target_key,
                        target_property_id,
                    ),
                ),
            }
        } else {
            self
        }
    }

    /// The error reported where that edge cannot be drawn.
    ///
    /// It names the hook at fault: the target where the target's role or kind is
    /// refused, the first hook that does not resolve, and the source otherwise.
    pub open spec fn connect_report(
        self,
        kind: GraphErrorKind,
        source_key: Seq<char>,
        source_property_id: Seq<char>,
        target_key: Seq<char>,
        target_property_id: Seq<char>,
    ) -> GraphErrorView {
        let source = hook_key(source_key, source_property_id);
        let target = hook_key(target_key, target_property_id);
        let at_target = match kind {
            GraphErrorKind::UnknownProperty => self.graph.has_hook(source_key, source_property_id),
            GraphErrorKind::InvalidTargetRole => true,
            GraphErrorKind::EventRequiresCommand => true,
            _ => false,
        };
        if kind == GraphErrorKind::DuplicateEdge {
            GraphErrorView::report(kind, source_key, source_property_id, edge_key(source, target))
        } else if at_target {
            GraphErrorView::report(kind, target_key, target_property_id, target)
        } else {
            GraphErrorView::report(kind, source_key, source_property_id, source)
        }
    }
}

/// Utility for building graphs.
pub struct GraphBuilder<'a> {
    schema: &'a Schema,
    graph: Graph,
}

impl<'a> View for GraphBuilder<'a> {
    type V = GraphBuilderView;

    closed spec fn view(&self) -> GraphBuilderView {
        GraphBuilderView { schema: self.schema@, graph: self.graph@ }
    }
}

impl<'a> GraphBuilder<'a> {
    fn new(schema: &'a Schema) -> (builder: GraphBuilder<'a>)
        ensures
            builder@ == GraphBuilderView::empty(schema@),
            schema@.wf() ==> builder@.wf(),
    {
        let graph = Graph { nodes: Vec::new(), edge_map: EdgeMap::default() };
        proof {
            assert(graph@.nodes =~= Seq::empty());
            assert(graph@.edge_map.edges =~= Seq::empty());
        }
        GraphBuilder { schema, graph }
    }

    /// Declares a new node.
    pub fn node(&mut self, id: &str, key: &str) -> (result: Result<PlacedNode, GraphError>)
        ensures
            final(self)@ == old(self)@.after_node(id@, key@),
            old(self)@.wf() ==> final(self)@.wf(),
            match result {
                Ok(placed) => old(self)@.node_error(id@, key@) is None && placed@
                    == PlacedNodeView::placed(old(self)@.schema.node(id@), key@),
                Err(error) => old(self)@.node_error(id@, key@) == Some(error@.kind) && error@
                    == GraphBuilderView::node_report(error@.kind, id@, key@),
            },
    {
        proof {
            reveal_strlit("");
            assert(""@ =~= Seq::<char>::empty());
        }
        if self.graph.has_node(key) {
            return Err(GraphError::report(GraphErrorKind::DuplicateKey, key, "", key));
        }
        let node = match self.schema.get_node(id) {
            Some(node) => node,
            None => {
                return Err(GraphError::report(GraphErrorKind::UnknownTemplate, key, "", id));
            },
        };
        let placed_node = PlacedNode::new(node, key);
        proof {
            if old(self)@.wf() {
                old(self)@.schema.lemma_node_wf(id@);
                PlacedNodeView::lemma_placed(node@, key@);
                old(self)@.graph.lemma_with_node(placed_node@);
            }
        }
        self.graph.nodes.push(placed_node.clone());
        proof {
            assert(self.graph@.nodes =~= old(self).graph@.nodes.push(placed_node@));
        }
        Ok(placed_node)
    }

    /// Assigns a value to a property.
    ///
    /// The instance is the one that this builder holds under the key of
    /// `placed_node`; a key that it does not hold resolves no property.
    pub fn assign(&mut self, placed_node: &PlacedNode, property_id: &str, value: Value) -> (result:
        Result<(), GraphError>)
        ensures
            final(self)@ == old(self)@.after_assign(placed_node@.key, property_id@, value@),
            old(self)@.wf() ==> final(self)@.wf(),
            match result {
                Ok(_) => old(self)@.assign_error(placed_node@.key, property_id@, value@) is None,
                Err(error) => old(self)@.assign_error(placed_node@.key, property_id@, value@) == Some(
                    error@.kind,
                ) && error@ == GraphErrorView::report(
                    error@.kind,
                    placed_node@.key,
                    property_id@,
                    hook_key(placed_node@.key, property_id@),
                ),
            },
    {
        let key = placed_node.key.as_str();
        let hook = hook_key_of(key, property_id);
        let at = match self.graph.find_node(key) {
            Some(at) => at,
            None => {
                return Err(
                    GraphError::report(
                        GraphErrorKind::UnknownProperty,
                        key,
                        property_id,
                        hook.as_str(),
                    ),
                );
            },
        };
        proof {
            old(self)@.graph.lemma_node(key@);
            assert(old(self)@.graph.nodes[at as int] == self.graph.nodes[at as int]@);
        }
        let kind = match self.graph.nodes[at].node.get_property(property_id) {
            None => Some(GraphErrorKind::UnknownProperty),
            Some(property) => match property.data_type() {
                None => Some(GraphErrorKind::NotADataProperty),
                Some(data_type) => if *data_type != value.data_type() {
                    Some(GraphErrorKind::TypeMismatch)
                } else {
                    None
                },
            },
        };
        if let Some(kind) = kind {
            return Err(GraphError::report(kind, key, property_id, hook.as_str()));
        }
        let mut node = self.graph.nodes[at].clone();
        node.set_value(property_id, value);
        proof {
            if old(self)@.wf() {
                old(self)@.graph.lemma_with_value(key@, property_id@, value@);
            }
        }
        self.graph.nodes.set(at, node);
        proof {
            assert(self.graph@.nodes =~= old(self)@.graph.with_value(
                key@,
                property_id@,
                value@,
            ).nodes);
        }
        Ok(())
    }

    /// Connects two properties by an edge.
    ///
    /// The instances are those that this builder holds under the keys of
    /// `source_node` and `target_node`; a key that it does not hold resolves no
    /// property.
    pub fn connect(
        &mut self,
        source_node: &PlacedNode,
        source_property_id: &str,
        target_node: &PlacedNode,
        target_property_id: &str,
    ) -> (result: Result<(), GraphError>)
        ensures
            final(self)@ == old(self)@.after_connect(
                source_node@.key,
                source_property_id@,
                target_node@.key,
                target_property_id@,
            ),
            old(self)@.wf() ==> final(self)@.wf(),
            match result {
                Ok(_) => old(self)@.connect_error(
                    source_node@.key,
                    source_property_id@,
                    target_node@.key,
                    target_property_id@,
                ) is None,
                Err(error) => old(self)@.connect_error(
                    source_node@.key,
                    source_property_id@,
                    target_node@.key,
                    target_property_id@,
                ) == Some(error@.kind) && error@ == old(self)@.connect_report(
                    error@.kind,
                    source_node@.key,
                    source_property_id@,
                    target_node@.key,
                    target_property_id@,
                ),
            },
    {
        let source_key = source_node.key.as_str();
        let target_key = target_node.key.as_str();
        let source_name = hook_key_of(source_key, source_property_id);
        let target_name = hook_key_of(target_key, target_property_id);
        let ghost before = old(self)@;

        let source = match self.resolve(source_key, source_property_id) {
            Some(hook) => hook,
            None => {
                return Err(
                    GraphError::report(
                        GraphErrorKind::UnknownProperty,
                        source_key,
                        source_property_id,
                        source_name.as_str(),
                    ),
                );
            },
        };
        let target = match self.resolve(target_key, target_property_id) {
            Some(hook) => hook,
            None => {
                return Err(
                    GraphError::report(
                        GraphErrorKind::UnknownProperty,
                        target_key,
                        target_property_id,
                        target_name.as_str(),
                    ),
                );
            },
        };

        if source_node.key == target_node.key {
            return Err(
                GraphError::report(
                    GraphErrorKind::SelfConnection,
                    source_key,
                    source_property_id,
                    source_name.as_str(),
                ),
            );
        }
        if !source.property.is_target() {
            return Err(
                GraphError::report(
                    GraphErrorKind::InvalidSourceRole,
                    source_key,
                    source_property_id,
                    source_name.as_str(),
                ),
            );
        }
        if !target.property.is_source() {
            return Err(
                GraphError::report(
                    GraphErrorKind::InvalidTargetRole,
                    target_key,
                    target_property_id,
                    target_name.as_str(),
                ),
            );
        }
        if source.property.is_event() && !target.property.is_command() {
            return Err(
                GraphError::report(
                    GraphErrorKind::EventRequiresCommand,
                    target_key,
                    target_property_id,
                    target_name.as_str(),
                ),
            );
        }
        if target.property.is_command() && !source.property.is_event() {
            return Err(
                GraphError::report(
                    GraphErrorKind::CommandRequiresEvent,
                    source_key,
                    source_property_id,
                    source_name.as_str(),
                ),
            );
        }
        let same_type = match (source.property.data_type(), target.property.data_type()) {
            (Some(a), Some(b)) => *a == *b,
            (None, None) => true,
            _ => false,
        };
        if !same_type {
            return Err(
                GraphError::report(
                    GraphErrorKind::TypeMismatch,
                    source_key,
                    source_property_id,
                    source_name.as_str(),
                ),
            );
        }
        let edge = Edge::new(source, target);
        proof {
            assert(edge@ == before.edge_between(
                source_node@.key,
                source_property_id@,
                target_node@.key,
                target_property_id@,
            ));
            before.graph.lemma_node(source_node@.key);
            before.graph.lemma_node(target_node@.key);
            before.graph.node(source_node@.key).node.lemma_property(source_property_id@);
            before.graph.node(target_node@.key).node.lemma_property(target_property_id@);
            assert(edge@.key() == edge_key(source_name@, target_name@));
        }
        if self.graph.edge_map.contains_edge(&edge) {
            let name = edge_key_of(source_name.as_str(), target_name.as_str());
            return Err(
                GraphError::report(
                    GraphErrorKind::DuplicateEdge,
                    source_key,
                    source_property_id,
                    name.as_str(),
                ),
            );
        }
        proof {
            assert(before.graph.edge_valid(edge@));
            before.graph.edge_map.lemma_with_edge(edge@);
            if before.wf() {
                before.graph.lemma_with_edge(edge@);
            }
        }
        self.graph.edge_map.insert(&edge);
        Ok(())
    }

    /// The hook on the property `property_id` of the instance `key`, if this
    /// builder holds such an instance and its template declares the property.
    fn resolve(&self, key: &str, property_id: &str) -> (hook: Option<Hook>)
        ensures
            match hook {
                Some(hook) => self@.graph.has_hook(key@, property_id@) && hook@
                    == self@.graph.hook(key@, property_id@),
                None => !self@.graph.has_hook(key@, property_id@),
            },
    {
        let at = match self.graph.find_node(key) {
            Some(at) => at,
            None => {
                return None;
            },
        };
        proof {
            self@.graph.lemma_node(key@);
            assert(self@.graph.nodes[at as int] == self.graph.nodes[at as int]@);
        }
        match self.graph.nodes[at].node.get_property(property_id) {
            Some(property) => Some(Hook::new(self.graph.nodes[at].clone(), property.clone())),
            None => None,
        }
    }

    /// Builds a `Graph`.
    ///
    /// The graph is complete when every input of every instance has a value
    /// bound, by default or by assignment, or has an edge that leads to it.
    /// Where it is not, the error names the first input that has neither.
    pub fn build(self) -> (result: Result<Graph, GraphError>)
        ensures
            result is Ok <==> self@.graph.is_complete(),
            match result {
                Ok(graph) => graph@ == self@.graph && (self@.wf() ==> graph@.wf()),
                Err(error) => exists|i: int, j: int| #[trigger]
                    self@.graph.first_unsatisfied(i, j) && error@ == self@.graph.missing_value(
                        i,
                        j,
                    ),
            },
    {
        let mut i: usize = 0;
        while i < self.graph.nodes.len()
            invariant
                i <= self.graph.nodes.len(),
                forall|a: int, b: int| a < i ==> !#[trigger] self@.graph.unsatisfied(a, b),
            decreases self.graph.nodes.len() - i,
        {
            let placed_node = &self.graph.nodes[i];
            proof {
                assert(self@.graph.nodes[i as int] == placed_node@);
            }
            let mut j: usize = 0;
            while j < placed_node.node.properties.len()
                invariant
                    i < self.graph.nodes.len(),
                    self@.graph.nodes[i as int] == placed_node@,
                    j <= placed_node.node.properties.len(),
                    forall|a: int, b: int| a < i ==> !#[trigger] self@.graph.unsatisfied(a, b),
                    forall|b: int| b < j ==> !#[trigger] self@.graph.unsatisfied(i as int, b),
                decreases placed_node.node.properties.len() - j,
            {
                let property = &placed_node.node.properties[j];
                proof {
                    assert(placed_node@.node.properties[j as int] == property@);
                }
                if property.is_input() {
                    let property_id = property.id().as_str();
                    if !placed_node.find_value(property_id).is_some() {
                        let hook = hook_key_of(placed_node.key.as_str(), property_id);
                        if !self.graph.edge_map.feeds(hook.as_str()) {
                            proof {
                                assert(self@.graph.unsatisfied(i as int, j as int));
                                assert(self@.graph.first_unsatisfied(i as int, j as int));
                            }
                            return Err(
                                GraphError::report(
                                    GraphErrorKind::MissingValue,
                                    placed_node.key.as_str(),
                                    property_id,
                                    hook.as_str(),
                                ),
                            );
                        }
                    }
                }
                j += 1;
            }
            i += 1;
        }
        Ok(self.graph)
    }
}

} // verus!
