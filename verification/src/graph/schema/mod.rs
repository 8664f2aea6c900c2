//! Schema describes what elements can graphs contain.

use vstd::prelude::*;

use crate::graph::keys::{
    first_index, is_first, lemma_first_exists, lemma_first_index, lemma_push_fresh,
};
use crate::graph::schema::node::{Node, NodeId, NodeView};

pub mod node;
pub mod property;

verus! {

/// Holds available elements for building graphs.
#[derive(Debug)]
pub struct Schema {
    /// All available nodes, in the order of their declaration; no two share an id.
    pub nodes: Vec<Node>,
}

/// Mathematical model of a [`Schema`].
pub struct SchemaView {
    pub nodes: Seq<NodeView>,
}

impl SchemaView {
    /// The ids of the nodes, in the order of their declaration.
    pub open spec fn node_ids(self) -> Seq<Seq<char>> {
        self.nodes.map_values(|n: NodeView| n.id)
    }

    /// No two nodes share an id, and no node declares two properties under one id.
    pub open spec fn wf(self) -> bool {
        &&& self.node_ids().no_duplicates()
        &&& forall|i: int| 0 <= i < self.nodes.len() ==> (#[trigger] self.nodes[i]).wf()
    }

    /// Whether the schema declares a node with this id.
    pub open spec fn has_node(self, id: Seq<char>) -> bool {
        self.node_ids().contains(id)
    }

    /// The node with this id, where the schema declares one.
    pub open spec fn node(self, id: Seq<char>) -> NodeView
        recommends
            self.has_node(id),
    {
        self.nodes[first_index(self.node_ids(), id)]
    }

    /// The schema with one more node, declared last.
    pub open spec fn with_node(self, node: NodeView) -> SchemaView {
        SchemaView { nodes: self.nodes.push(node) }
    }

    /// Whether a node with this id can still be declared: the id is not taken.
    pub open spec fn accepts(self, id: Seq<char>) -> bool {
        !self.has_node(id)
    }

    /// Declaring a node under a fresh id keeps the schema valid, adds exactly that
    /// id to those declared, and leaves the other nodes as they were.
    pub proof fn lemma_with_node(self, node: NodeView)
        requires
            !self.has_node(node.id),
        ensures
            self.wf() && node.wf() ==> self.with_node(node).wf(),
            forall|id: Seq<char>| #[trigger]
                self.with_node(node).has_node(id) <==> self.has_node(id) || id == node.id,
            self.with_node(node).node(node.id) == node,
            forall|id: Seq<char>|
                self.has_node(id) ==> #[trigger] self.with_node(node).node(id) == self.node(id),
    {
        let ids = self.node_ids();
        assert(self.with_node(node).node_ids() =~= ids.push(node.id));
        lemma_push_fresh(ids, node.id);
        assert forall|id: Seq<char>| self.has_node(id) implies #[trigger] self.with_node(node).node(
            id,
        ) == self.node(id) by {
            lemma_first_exists(ids, id);
        }
    }

    /// A node that the schema declares is itself valid.
    pub proof fn lemma_node_wf(self, id: Seq<char>)
        requires
            self.wf(),
            self.has_node(id),
        ensures
            self.node(id).wf(),
            self.node(id).id == id,
    {
        lemma_first_exists(self.node_ids(), id);
    }

    /// An id can be declared once: after a node has been declared, no node with
    /// the same id is accepted.
    pub proof fn lemma_id_taken(self, node: NodeView)
        requires
            self.accepts(node.id),
        ensures
            !self.with_node(node).accepts(node.id),
            forall|id: Seq<char>|
                !self.accepts(id) ==> !#[trigger] self.with_node(node).accepts(id),
    {
        self.lemma_with_node(node);
    }
}

impl View for Schema {
    type V = SchemaView;

    open spec fn view(&self) -> SchemaView {
        SchemaView { nodes: self.nodes@.map_values(|n: Node| n@) }
    }
}

impl Schema {
    /// Constructs a new `SchemaBuilder`.
    pub fn builder() -> (builder: SchemaBuilder)
        ensures
            builder@ == (SchemaView { nodes: Seq::empty() }),
            builder@.wf(),
            forall|id: Seq<char>| !#[trigger] builder@.has_node(id),
    {
        SchemaBuilder::new()
    }

    /// Position of the node with this id among the schema's nodes.
    pub fn find_node(&self, id: &str) -> (found: Option<usize>)
        ensures
            match found {
                Some(i) => self@.has_node(id@) && is_first(self@.node_ids(), id@, i as int) && i
                    == first_index(self@.node_ids(), id@),
                None => !self@.has_node(id@),
            },
    {
        let wanted = NodeId::from(id);
        let mut i: usize = 0;
        while i < self.nodes.len()
            invariant
                i <= self.nodes.len(),
                wanted@ == id@,
                forall|j: int| 0 <= j < i ==> self@.node_ids()[j] != id@,
            decreases self.nodes.len() - i,
        {
            if self.nodes[i].id == wanted {
                proof {
                    assert(self@.node_ids()[i as int] == id@);
                    lemma_first_index(self@.node_ids(), id@, i as int);
                }
                return Some(i);
            }
            i += 1;
        }
        None
    }

    /// Returns the node with this id, if the schema declares one.
    pub fn get_node(&self, id: &str) -> (found: Option<&Node>)
        ensures
            match found {
                Some(node) => self@.has_node(id@) && node@ == self@.node(id@),
                None => !self@.has_node(id@),
            },
    {
        match self.find_node(id) {
            Some(i) => {
                proof {
                    assert(self@.nodes[i as int] == self.nodes[i as int]@);
                }
                Some(&self.nodes[i])
            },
            None => None,
        }
    }
}

impl Clone for Schema {
    fn clone(&self) -> (schema: Schema)
        ensures
            schema@ == self@,
    {
        let mut nodes: Vec<Node> = Vec::new();
        let mut i: usize = 0;
        while i < self.nodes.len()
            invariant
                i <= self.nodes.len(),
                nodes@.len() == i,
                forall|j: int| 0 <= j < i ==> nodes@[j]@ == self.nodes@[j]@,
            decreases self.nodes.len() - i,
        {
            nodes.push(self.nodes[i].clone());
            i += 1;
        }
        let schema = Schema { nodes };
        proof {
            assert(schema@.nodes =~= self@.nodes);
        }
        schema
    }
}

/// Utility for building a `Schema`.
pub struct SchemaBuilder {
    schema: Schema,
}

impl View for SchemaBuilder {
    type V = SchemaView;

    closed spec fn view(&self) -> SchemaView {
        self.schema@
    }
}

impl SchemaBuilder {
    fn new() -> (builder: SchemaBuilder)
        ensures
            builder@ == (SchemaView { nodes: Seq::empty() }),
            builder@.wf(),
            forall|id: Seq<char>| !#[trigger] builder@.has_node(id),
    {
        let schema = Schema { nodes: Vec::new() };
        proof {
            assert(schema@.nodes =~= Seq::empty());
        }
        SchemaBuilder { schema }
    }

    /// Returns whether a node with this id has been declared.
    pub fn has_node(&self, id: &str) -> (declared: bool)
        ensures
            declared == self@.has_node(id@),
    {
        self.schema.find_node(id).is_some()
    }

    /// Declares a node.
    ///
    /// A second node with the same id cannot be declared. Code that is not
    /// verified and tries all the same is stopped by a panic.
    pub fn node(&mut self, node: Node) -> (builder: &mut SchemaBuilder)
        requires
            old(self)@.accepts(node@.id),
        ensures
            *final(self) == *final(builder),
            builder@ == old(self)@.with_node(node@),
            old(self)@.wf() && node@.wf() ==> builder@.wf(),
            forall|id: Seq<char>| #[trigger]
                builder@.has_node(id) <==> old(self)@.has_node(id) || id == node@.id,
    {
        proof {
            old(self)@.lemma_with_node(node@);
        }
        if self.schema.find_node(node.id.as_str()).is_some() {
            vstd::pervasive::unreached::<()>();
        }
        self.schema.nodes.push(node);
        proof {
            assert(self.schema@.nodes =~= old(self).schema@.nodes.push(node@));
        }
        self
    }

    /// Builds schema.
    pub fn build(&self) -> (schema: Schema)
        ensures
            schema@ == self@,
    {
        self.schema.clone()
    }
}

} // verus!
