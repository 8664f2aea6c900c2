//! Edge connects to node's properties.

use vstd::prelude::*;
use vstd::string::StringExecFns;

use crate::graph::graph::placed_node::{PlacedNode, PlacedNodeView};
use crate::graph::keys::{first_index, is_first, lemma_first_index, lemma_push_fresh};
use crate::graph::schema::property::{Property, PropertyView};

verus! {

/// Canonical name of a hook: the instance key, `#`, the property id.
pub open spec fn hook_key(instance_key: Seq<char>, property_id: Seq<char>) -> Seq<char> {
    instance_key + seq!['#'] + property_id
}

/// Canonical name of an edge: the source hook's name, `>`, the target hook's name.
pub open spec fn edge_key(source: Seq<char>, target: Seq<char>) -> Seq<char> {
    source + seq!['>'] + target
}

/// Builds the canonical name of the hook on `property_id` of the instance `instance_key`.
pub fn hook_key_of(instance_key: &str, property_id: &str) -> (key: String)
    ensures
        key@ == hook_key(instance_key@, property_id@),
{
    proof {
        reveal_strlit("#");
        assert("#"@ =~= seq!['#']);
    }
    let mut key = instance_key.to_owned();
    key.append("#");
    key.append(property_id);
    key
}

/// Builds the canonical name of the edge between two hooks, from their names.
pub fn edge_key_of(source: &str, target: &str) -> (key: String)
    ensures
        key@ == edge_key(source@, target@),
{
    proof {
        reveal_strlit(">");
        assert(">"@ =~= seq!['>']);
    }
    let mut key = source.to_owned();
    key.append(">");
    key.append(target);
    key
}

/// Represents a point of connection on a node.
#[derive(Debug)]
pub struct Hook {
    /// Target node.
    pub node: PlacedNode,
    /// Target node's property.
    pub property: Property,
}

/// Mathematical model of a [`Hook`].
pub struct HookView {
    pub node: PlacedNodeView,
    pub property: PropertyView,
}

impl HookView {
    /// The hook's canonical name, by which hooks are compared.
    pub open spec fn key(self) -> Seq<char> {
        hook_key(self.node.key, self.property.id())
    }
}

impl View for Hook {
    type V = HookView;

    open spec fn view(&self) -> HookView {
        HookView { node: self.node@, property: self.property@ }
    }
}

/// Represents a connection between two properties.
#[derive(Debug)]
pub struct Edge {
    /// Source hook.
    pub source: Hook,
    /// Target hook.
    pub target: Hook,
}

/// Mathematical model of an [`Edge`].
pub struct EdgeView {
    pub source: HookView,
    pub target: HookView,
}

impl EdgeView {
    /// The edge's canonical name, by which edges are told apart.
    pub open spec fn key(self) -> Seq<char> {
        edge_key(self.source.key(), self.target.key())
    }
}

impl View for Edge {
    type V = EdgeView;

    open spec fn view(&self) -> EdgeView {
        EdgeView { source: self.source@, target: self.target@ }
    }
}

/// Contains edges of a graph.
///
/// The edges are the only state: which hook feeds a target, and which hooks a
/// source feeds, is read off the edges at every lookup, so that the lookups
/// cannot disagree with the edges.
#[derive(Debug)]
pub struct EdgeMap {
    /// All edges, in the order of their insertion; no two share a canonical name.
    pub edges: Vec<Edge>,
}

/// Mathematical model of an [`EdgeMap`].
pub struct EdgeMapView {
    pub edges: Seq<EdgeView>,
}

/// The source of the last of `edges` that leads to the hook named `target`.
pub open spec fn input_among(edges: Seq<EdgeView>, target: Seq<char>) -> Option<HookView>
    decreases edges.len(),
{
    if edges.len() == 0 {
        None
    } else if edges.last().target.key() == target {
        Some(edges.last().source)
    } else {
        input_among(edges.drop_last(), target)
    }
}

/// The targets of those of `edges` that leave the hook named `source`, in the
/// order of the edges.
pub open spec fn outputs_among(edges: Seq<EdgeView>, source: Seq<char>) -> Seq<HookView>
    decreases edges.len(),
{
    if edges.len() == 0 {
        Seq::empty()
    } else {
        let earlier = outputs_among(edges.drop_last(), source);
        if edges.last().source.key() == source {
            earlier.push(edges.last().target)
        } else {
            earlier
        }
    }
}

/// A hook has an input among the edges exactly if one of them leads to it.
pub proof fn lemma_input_among(edges: Seq<EdgeView>, target: Seq<char>)
    ensures
        input_among(edges, target) is Some <==> exists|i: int|
            0 <= i < edges.len() && (#[trigger] edges[i]).target.key() == target,
    decreases edges.len(),
{
    if edges.len() > 0 {
        let shorter = edges.drop_last();
        lemma_input_among(shorter, target);
        if edges.last().target.key() == target {
            assert(edges[edges.len() - 1].target.key() == target);
        } else {
            if input_among(shorter, target) is Some {
                let i = choose|i: int|
                    0 <= i < shorter.len() && (#[trigger] shorter[i]).target.key() == target;
                assert(edges[i] == shorter[i]);
            }
            if exists|i: int|
                0 <= i < edges.len() && (#[trigger] edges[i]).target.key() == target {
                let i = choose|i: int|
                    0 <= i < edges.len() && (#[trigger] edges[i]).target.key() == target;
                assert(shorter[i] == edges[i]);
            }
        }
    }
}

impl EdgeMapView {
    /// The canonical names of the edges, in the order of their insertion.
    pub open spec fn keys(self) -> Seq<Seq<char>> {
        self.edges.map_values(|e: EdgeView| e.key())
    }

    /// No two edges share a canonical name.
    pub open spec fn wf(self) -> bool {
        self.keys().no_duplicates()
    }

    /// Whether an edge with this canonical name exists.
    pub open spec fn contains_key(self, key: Seq<char>) -> bool {
        self.keys().contains(key)
    }

    /// Whether some edge leads to the hook named `target`.
    pub open spec fn feeds(self, target: Seq<char>) -> bool {
        exists|i: int|
            0 <= i < self.edges.len() && (#[trigger] self.edges[i]).target.key() == target
    }

    /// The hook that feeds the hook named `target`: the source of the edge that
    /// was inserted last among those that lead to it.
    pub open spec fn input_of(self, target: Seq<char>) -> Option<HookView> {
        input_among(self.edges, target)
    }

    /// The hooks that the hook named `source` feeds, in the order in which their
    /// edges were inserted.
    pub open spec fn outputs_of(self, source: Seq<char>) -> Seq<HookView> {
        outputs_among(self.edges, source)
    }

    /// The edges after the attempt to insert `edge`: with `edge` as the last of
    /// them, unless an edge of the same name stands already, which then stays.
    pub open spec fn with_edge(self, edge: EdgeView) -> EdgeMapView {
        if self.contains_key(edge.key()) {
            self
        } else {
            EdgeMapView { edges: self.edges.push(edge) }
        }
    }

    /// Inserting an edge keeps the names distinct, adds exactly its name, and
    /// leaves every edge that stood before where it was.
    pub proof fn lemma_with_edge(self, edge: EdgeView)
        ensures
            self.wf() ==> self.with_edge(edge).wf(),
            forall|key: Seq<char>| #[trigger]
                self.with_edge(edge).contains_key(key) <==> self.contains_key(key) || key
                    == edge.key(),
            !self.contains_key(edge.key()) ==> self.with_edge(edge).edges == self.edges.push(edge),
            self.contains_key(edge.key()) ==> self.with_edge(edge) == self,
    {
        let keys = self.keys();
        let after = self.with_edge(edge);
        if !self.contains_key(edge.key()) {
            assert(after.keys() =~= keys.push(edge.key()));
            lemma_push_fresh(keys, edge.key());
        }
    }
}

impl View for EdgeMap {
    type V = EdgeMapView;

    open spec fn view(&self) -> EdgeMapView {
        EdgeMapView { edges: self.edges@.map_values(|e: Edge| e@) }
    }
}

impl Hook {
    /// Constructs a `Hook`.
    pub fn new(node: PlacedNode, property: Property) -> (hook: Hook)
        ensures
            hook@ == (HookView { node: node@, property: property@ }),
    {
        Hook { node, property }
    }

    /// The hook's canonical name: `<instance-key>#<property-id>`.
    pub fn key(&self) -> (key: String)
        ensures
            key@ == self@.key(),
    {
        hook_key_of(self.node.key.as_str(), self.property.id().as_str())
    }
}

impl PartialEq for Hook {
    /// Two hooks are the same hook when they have the same canonical name.
    fn eq(&self, other: &Hook) -> (equal: bool) {
        self.key() == other.key()
    }
}

impl vstd::std_specs::cmp::PartialEqSpecImpl for Hook {
    open spec fn obeys_eq_spec() -> bool {
        true
    }

    open spec fn eq_spec(&self, other: &Hook) -> bool {
        self@.key() == other@.key()
    }
}

impl Clone for Hook {
    fn clone(&self) -> (hook: Hook)
        ensures
            hook@ == self@,
    {
        Hook { node: self.node.clone(), property: self.property.clone() }
    }
}

impl Edge {
    /// Constructs an `Edge`.
    pub fn new(source: Hook, target: Hook) -> (edge: Edge)
        ensures
            edge@ == (EdgeView { source: source@, target: target@ }),
    {
        Edge { source, target }
    }

    /// The edge's canonical name: `<source-hook>><target-hook>`.
    pub fn key(&self) -> (key: String)
        ensures
            key@ == self@.key(),
    {
        let source = self.source.key();
        let target = self.target.key();
        edge_key_of(source.as_str(), target.as_str())
    }
}

impl PartialEq for Edge {
    /// Two edges are the same edge when they have the same canonical name.
    fn eq(&self, other: &Edge) -> (equal: bool) {
        self.key() == other.key()
    }
}

impl vstd::std_specs::cmp::PartialEqSpecImpl for Edge {
    open spec fn obeys_eq_spec() -> bool {
        true
    }

    open spec fn eq_spec(&self, other: &Edge) -> bool {
        self@.key() == other@.key()
    }
}

impl Clone for Edge {
    fn clone(&self) -> (edge: Edge)
        ensures
            edge@ == self@,
    {
        Edge { source: self.source.clone(), target: self.target.clone() }
    }
}

impl EdgeMap {
    /// Position of the edge with this canonical name.
    pub fn find(&self, key: &str) -> (found: Option<usize>)
        ensures
            match found {
                Some(i) => self@.contains_key(key@) && is_first(self@.keys(), key@, i as int) && i
                    == first_index(self@.keys(), key@),
                None => !self@.contains_key(key@),
            },
    {
        let wanted = key.to_owned();
        let mut i: usize = 0;
        while i < self.edges.len()
            invariant
                i <= self.edges.len(),
                wanted@ == key@,
                forall|j: int| 0 <= j < i ==> self@.keys()[j] != key@,
            decreases self.edges.len() - i,
        {
            if self.edges[i].key() == wanted {
                proof {
                    assert(self@.keys()[i as int] == key@);
                    lemma_first_index(self@.keys(), key@, i as int);
                }
                return Some(i);
            }
            i += 1;
        }
        None
    }

    /// Returns whether an edge exists.
    pub fn contains_edge(&self, edge: &Edge) -> (exists: bool)
        ensures
            exists == self@.contains_key(edge@.key()),
    {
        self.contains_hooks(&edge.source, &edge.target)
    }

    /// Returns whether an edge exists between hooks.
    pub fn contains_hooks(&self, source: &Hook, target: &Hook) -> (exists: bool)
        ensures
            exists == self@.contains_key(edge_key(source@.key(), target@.key())),
    {
        self.contains_edge_between(&source.node, &source.property, &target.node, &target.property)
    }

    /// Returns whether an edge exists between properties.
    pub fn contains_edge_between(
        &self,
        source_node: &PlacedNode,
        source_property: &Property,
        target_node: &PlacedNode,
        target_property: &Property,
    ) -> (exists: bool)
        ensures
            exists == self@.contains_key(
                edge_key(
                    hook_key(source_node@.key, source_property@.id()),
                    hook_key(target_node@.key, target_property@.id()),
                ),
            ),
    {
        let key = EdgeMap::get_edge_key(source_node, source_property, target_node, target_property);
        self.find(key.as_str()).is_some()
    }

    /// Inserts an edge, unless an edge of the same canonical name exists: that
    /// one stays as it is, and is returned.
    pub fn insert(&mut self, edge: &Edge) -> (existing: Option<Edge>)
        ensures
            final(self)@ == old(self)@.with_edge(edge@),
            final(self)@.contains_key(edge@.key()),
            old(self)@.wf() ==> final(self)@.wf(),
            match existing {
                Some(kept) => old(self)@.contains_key(edge@.key()) && final(self)@ == old(self)@
                    && kept@ == old(self)@.edges[first_index(old(self)@.keys(), edge@.key())],
                None => !old(self)@.contains_key(edge@.key()) && final(self)@.edges == old(
                    self,
                )@.edges.push(edge@),
            },
    {
        proof {
            old(self)@.lemma_with_edge(edge@);
        }
        let key = edge.key();
        match self.find(key.as_str()) {
            Some(i) => {
                proof {
                    assert(self@.edges[i as int] == self.edges[i as int]@);
                }
                Some(self.edges[i].clone())
            },
            None => {
                self.edges.push(edge.clone());
                proof {
                    assert(self@.edges =~= old(self)@.edges.push(edge@));
                }
                None
            },
        }
    }

    /// Returns whether some edge leads to the hook with this canonical name.
    pub fn feeds(&self, target: &str) -> (fed: bool)
        ensures
            fed == self@.feeds(target@),
    {
        let wanted = target.to_owned();
        let mut i: usize = 0;
        while i < self.edges.len()
            invariant
                i <= self.edges.len(),
                wanted@ == target@,
                forall|j: int| 0 <= j < i ==> (#[trigger] self@.edges[j]).target.key() != target@,
            decreases self.edges.len() - i,
        {
            if self.edges[i].target.key() == wanted {
                proof {
                    assert(self@.edges[i as int].target.key() == target@);
                }
                return true;
            }
            i += 1;
        }
        false
    }

    /// Returns an input hook for a target if it exists.
    pub fn get_input(&self, target: &Hook) -> (input: Option<Hook>)
        ensures
            match input {
                Some(hook) => self@.input_of(target@.key()) == Some(hook@),
                None => self@.input_of(target@.key()) is None,
            },
            input is Some <==> self@.feeds(target@.key()),
    {
        let wanted = target.key();
        self.input_of(wanted.as_str())
    }

    /// Returns the hook that feeds the hook with this canonical name, if any does.
    pub fn input_of(&self, target: &str) -> (input: Option<Hook>)
        ensures
            match input {
                Some(hook) => self@.input_of(target@) == Some(hook@),
                None => self@.input_of(target@) is None,
            },
            input is Some <==> self@.feeds(target@),
    {
        let wanted = target.to_owned();
        let mut input: Option<Hook> = None;
        let mut i: usize = 0;
        proof {
            assert(self@.edges.take(0) =~= Seq::empty());
        }
        while i < self.edges.len()
            invariant
                i <= self.edges.len(),
                wanted@ == target@,
                match input {
                    Some(hook) => input_among(self@.edges.take(i as int), wanted@) == Some(hook@),
                    None => input_among(self@.edges.take(i as int), wanted@) is None,
                },
            decreases self.edges.len() - i,
        {
            proof {
                let upto = self@.edges.take(i + 1);
                assert(upto.drop_last() =~= self@.edges.take(i as int));
                assert(upto.last() == self.edges[i as int]@);
            }
            if self.edges[i].target.key() == wanted {
                input = Some(self.edges[i].source.clone());
            }
            i += 1;
        }
        proof {
            assert(self@.edges.take(i as int) =~= self@.edges);
            lemma_input_among(self@.edges, wanted@);
        }
        input
    }

    /// Returns all output hooks for a source.
    pub fn get_outputs(&self, source: &Hook) -> (outputs: Vec<Hook>)
        ensures
            outputs@.map_values(|h: Hook| h@) == self@.outputs_of(source@.key()),
    {
        let wanted = source.key();
        self.outputs_of(wanted.as_str())
    }

    /// Returns the hooks that the hook with this canonical name feeds.
    pub fn outputs_of(&self, source: &str) -> (outputs: Vec<Hook>)
        ensures
            outputs@.map_values(|h: Hook| h@) == self@.outputs_of(source@),
    {
        let wanted = source.to_owned();
        let mut outputs: Vec<Hook> = Vec::new();
        let mut i: usize = 0;
        proof {
            assert(self@.edges.take(0) =~= Seq::empty());
            assert(outputs@.map_values(|h: Hook| h@) =~= Seq::empty());
        }
        while i < self.edges.len()
            invariant
                i <= self.edges.len(),
                wanted@ == source@,
                outputs@.map_values(|h: Hook| h@) == outputs_among(
                    self@.edges.take(i as int),
                    wanted@,
                ),
            decreases self.edges.len() - i,
        {
            proof {
                let upto = self@.edges.take(i + 1);
                assert(upto.drop_last() =~= self@.edges.take(i as int));
                assert(upto.last() == self.edges[i as int]@);
            }
            let ghost before = outputs@.map_values(|h: Hook| h@);
            if self.edges[i].source.key() == wanted {
                let hook = self.edges[i].target.clone();
                outputs.push(hook);
                proof {
                    assert(outputs@.map_values(|h: Hook| h@) =~= before.push(hook@));
                }
            }
            i += 1;
        }
        proof {
            assert(self@.edges.take(i as int) =~= self@.edges);
        }
        outputs
    }

    fn get_edge_key(
        source_node: &PlacedNode,
        source_property: &Property,
        target_node: &PlacedNode,
        target_property: &Property,
    ) -> (key: String)
        ensures
            key@ == edge_key(
                hook_key(source_node@.key, source_property@.id()),
                hook_key(target_node@.key, target_property@.id()),
            ),
    {
        let source = hook_key_of(source_node.key.as_str(), source_property.id().as_str());
        let target = hook_key_of(target_node.key.as_str(), target_property.id().as_str());
        edge_key_of(source.as_str(), target.as_str())
    }
}

impl Clone for EdgeMap {
    fn clone(&self) -> (edge_map: EdgeMap)
        ensures
            edge_map@ == self@,
    {
        let mut edges: Vec<Edge> = Vec::new();
        let mut i: usize = 0;
        while i < self.edges.len()
            invariant
                i <= self.edges.len(),
                edges@.len() == i,
                forall|j: int| 0 <= j < i ==> edges@[j]@ == self.edges@[j]@,
            decreases self.edges.len() - i,
        {
            edges.push(self.edges[i].clone());
            i += 1;
        }
        let edge_map = EdgeMap { edges };
        proof {
            assert(edge_map@.edges =~= self@.edges);
        }
        edge_map
    }
}

impl Default for EdgeMap {
    fn default() -> (edge_map: EdgeMap)
        ensures
            edge_map@.edges.len() == 0,
            edge_map@.wf(),
    {
        EdgeMap { edges: Vec::new() }
    }
}

} // verus!
