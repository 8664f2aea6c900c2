//! Types for defining nodes.

use vstd::prelude::*;

use crate::graph::keys::{
    first_index, is_first, lemma_first_exists, lemma_first_index, lemma_push_fresh,
};
use crate::graph::schema::property::{
    CommandProperty, EventProperty, InputProperty, OutputProperty, Property, PropertyId,
    PropertyView,
};
use crate::graph::value::{DataType, Value};

verus! {

/// Identifier of a node template, unique within one schema.
///
/// Two identifiers are equal exactly when they hold the same string.
#[derive(Debug, Hash, Eq, PartialOrd)]
pub struct NodeId(String);

impl View for NodeId {
    type V = Seq<char>;

    closed spec fn view(&self) -> Seq<char> {
        self.0@
    }
}

impl NodeId {
    /// The identifier as a string slice.
    pub fn as_str(&self) -> (s: &str)
        ensures
            s@ == self@,
    {
        self.0.as_str()
    }
}

impl Clone for NodeId {
    fn clone(&self) -> (id: NodeId)
        ensures
            id@ == self@,
    {
        NodeId(self.0.clone())
    }
}

impl PartialEq for NodeId {
    fn eq(&self, other: &NodeId) -> (equal: bool) {
        self.0 == other.0
    }
}

impl vstd::std_specs::cmp::PartialEqSpecImpl for NodeId {
    open spec fn obeys_eq_spec() -> bool {
        true
    }

    open spec fn eq_spec(&self, other: &NodeId) -> bool {
        self@ == other@
    }
}

impl From<&str> for NodeId {
    fn from(s: &str) -> (id: NodeId)
        ensures
            id@ == s@,
    {
        NodeId(s.to_owned())
    }
}

impl vstd::std_specs::convert::FromSpecImpl<&str> for NodeId {
    /// A string slice has no owned counterpart in specifications, so the result
    /// is stated over views, on `from` itself.
    open spec fn obeys_from_spec() -> bool {
        false
    }

    open spec fn from_spec(s: &str) -> NodeId {
        arbitrary()
    }
}

/// Describes a node.
#[derive(Debug)]
pub struct Node {
    /// Unique id of a node.
    pub id: NodeId,
    /// Node's properties, in the order of their declaration; no two share an id.
    pub properties: Vec<Property>,
}

/// Mathematical model of a [`Node`].
pub struct NodeView {
    pub id: Seq<char>,
    pub properties: Seq<PropertyView>,
}

impl NodeView {
    /// The ids of the properties, in the order of their declaration.
    pub open spec fn property_ids(self) -> Seq<Seq<char>> {
        self.properties.map_values(|p: PropertyView| p.id())
    }

    /// No two properties share an id.
    pub open spec fn wf(self) -> bool {
        self.property_ids().no_duplicates()
    }

    /// Whether the node declares a property with this id.
    pub open spec fn has_property(self, id: Seq<char>) -> bool {
        self.property_ids().contains(id)
    }

    /// The property with this id, where the node declares one.
    pub open spec fn property(self, id: Seq<char>) -> PropertyView
        recommends
            self.has_property(id),
    {
        self.properties[first_index(self.property_ids(), id)]
    }

    /// The node with one more property, declared last.
    pub open spec fn with_property(self, property: PropertyView) -> NodeView {
        NodeView { id: self.id, properties: self.properties.push(property) }
    }

    /// The property under an id that the node declares has that id.
    pub proof fn lemma_property(self, id: Seq<char>)
        requires
            self.has_property(id),
        ensures
            self.property(id).id() == id,
            self.properties.contains(self.property(id)),
    {
        lemma_first_exists(self.property_ids(), id);
    }

    /// Whether a property with this id can still be declared: the id is not taken.
    pub open spec fn accepts(self, id: Seq<char>) -> bool {
        !self.has_property(id)
    }

    /// Declaring a property under a fresh id keeps the ids distinct, and adds
    /// exactly that id to those declared.
    pub proof fn lemma_with_property(self, property: PropertyView)
        requires
            !self.has_property(property.id()),
        ensures
            self.wf() ==> self.with_property(property).wf(),
            self.with_property(property).property_ids() == self.property_ids().push(property.id()),
            forall|id: Seq<char>| #[trigger]
                self.with_property(property).has_property(id) <==> self.has_property(id) || id
                    == property.id(),
            self.with_property(property).property(property.id()) == property,
            forall|id: Seq<char>|
                self.has_property(id) ==> #[trigger] self.with_property(property).property(id)
                    == self.property(id),
    {
        let ids = self.property_ids();
        assert(self.with_property(property).property_ids() =~= ids.push(property.id()));
        lemma_push_fresh(ids, property.id());
        assert forall|id: Seq<char>| self.has_property(id) implies #[trigger] self.with_property(
            property,
        ).property(id) == self.property(id) by {
            lemma_first_exists(ids, id);
        }
    }

    /// An id can be declared once: after a property has been declared, no
    /// property with the same id is accepted.
    pub proof fn lemma_id_taken(self, property: PropertyView)
        requires
            self.accepts(property.id()),
        ensures
            !self.with_property(property).accepts(property.id()),
            forall|id: Seq<char>|
                !self.accepts(id) ==> !#[trigger] self.with_property(property).accepts(id),
    {
        self.lemma_with_property(property);
    }
}

impl View for Node {
    type V = NodeView;

    open spec fn view(&self) -> NodeView {
        NodeView { id: self.id@, properties: self.properties@.map_values(|p: Property| p@) }
    }
}

impl Node {
    /// Constructs a `NodeBuilder`.
    pub fn builder(id: &str) -> (builder: NodeBuilder)
        ensures
            builder@ == (NodeView { id: id@, properties: Seq::empty() }),
            builder@.wf(),
            forall|other: Seq<char>| !#[trigger] builder@.has_property(other),
    {
        NodeBuilder::new(id)
    }

    /// Position of the property with this id among the node's properties.
    pub fn find_property(&self, id: &str) -> (found: Option<usize>)
        ensures
            match found {
                Some(i) => self@.has_property(id@) && is_first(self@.property_ids(), id@, i as int)
                    && i == first_index(self@.property_ids(), id@),
                None => !self@.has_property(id@),
            },
    {
        let wanted = PropertyId::from(id);
        let mut i: usize = 0;
        while i < self.properties.len()
            invariant
                i <= self.properties.len(),
                wanted@ == id@,
                forall|j: int| 0 <= j < i ==> self@.property_ids()[j] != id@,
            decreases self.properties.len() - i,
        {
            if *self.properties[i].id() == wanted {
                proof {
                    assert(self@.property_ids()[i as int] == id@);
                    lemma_first_index(self@.property_ids(), id@, i as int);
                }
                return Some(i);
            }
            i += 1;
        }
        None
    }

    /// Returns the property with this id, if the node declares one.
    pub fn get_property(&self, id: &str) -> (found: Option<&Property>)
        ensures
            match found {
                Some(property) => self@.has_property(id@) && property@ == self@.property(id@),
                None => !self@.has_property(id@),
            },
    {
        match self.find_property(id) {
            Some(i) => {
                proof {
                    assert(self@.properties[i as int] == self.properties[i as int]@);
                }
                Some(&self.properties[i])
            },
            None => None,
        }
    }
}

impl Clone for Node {
    fn clone(&self) -> (node: Node)
        ensures
            node@ == self@,
    {
        let mut properties: Vec<Property> = Vec::new();
        let mut i: usize = 0;
        while i < self.properties.len()
            invariant
                i <= self.properties.len(),
                properties@.len() == i,
                forall|j: int| 0 <= j < i ==> properties@[j]@ == self.properties@[j]@,
            decreases self.properties.len() - i,
        {
            properties.push(self.properties[i].clone());
            i += 1;
        }
        let node = Node { id: self.id.clone(), properties };
        proof {
            assert(node@.properties =~= self@.properties);
        }
        node
    }
}

/// Utility for building nodes.
pub struct NodeBuilder {
    node: Node,
}

impl View for NodeBuilder {
    type V = NodeView;

    closed spec fn view(&self) -> NodeView {
        self.node@
    }
}

impl NodeBuilder {
    fn new(id: &str) -> (builder: NodeBuilder)
        ensures
            builder@ == (NodeView { id: id@, properties: Seq::empty() }),
            builder@.wf(),
            forall|other: Seq<char>| !#[trigger] builder@.has_property(other),
    {
        let node = Node { id: NodeId::from(id), properties: Vec::new() };
        proof {
            assert(node@.properties =~= Seq::empty());
        }
        NodeBuilder { node }
    }

    /// Returns whether a property with this id has been declared.
    pub fn has_property(&self, id: &str) -> (declared: bool)
        ensures
            declared == self@.has_property(id@),
    {
        self.node.find_property(id).is_some()
    }

    /// Declares a new property.
    ///
    /// A second property with the same id cannot be declared. Code that is not
    /// verified and tries all the same is stopped by a panic.
    pub fn property(&mut self, property: Property) -> (builder: &mut Self)
        requires
            old(self)@.accepts(property@.id()),
        ensures
            *final(self) == *final(builder),
            builder@ == old(self)@.with_property(property@),
            old(self)@.wf() ==> builder@.wf(),
            forall|other: Seq<char>| #[trigger]
                builder@.has_property(other) <==> old(self)@.has_property(other) || other
                    == property@.id(),
    {
        proof {
            old(self)@.lemma_with_property(property@);
        }
        if self.node.find_property(property.id().as_str()).is_some() {
            vstd::pervasive::unreached::<()>();
        }
        self.node.properties.push(property);
        proof {
            assert(self.node@.properties =~= old(self).node@.properties.push(property@));
        }
        self
    }

    /// Declares a new command property.
    pub fn command(&mut self, id: &str) -> (builder: &mut Self)
        requires
            old(self)@.accepts(id@),
        ensures
            *final(self) == *final(builder),
            builder@ == old(self)@.with_property(PropertyView::Command { id: id@ }),
            old(self)@.wf() ==> builder@.wf(),
            forall|other: Seq<char>| #[trigger]
                builder@.has_property(other) <==> old(self)@.has_property(other) || other == id@,
    {
        self.property(Property::Command(CommandProperty { id: PropertyId::from(id) }))
    }

    /// Declares a new event property.
    pub fn event(&mut self, id: &str) -> (builder: &mut Self)
        requires
            old(self)@.accepts(id@),
        ensures
            *final(self) == *final(builder),
            builder@ == old(self)@.with_property(PropertyView::Event { id: id@ }),
            old(self)@.wf() ==> builder@.wf(),
            forall|other: Seq<char>| #[trigger]
                builder@.has_property(other) <==> old(self)@.has_property(other) || other == id@,
    {
        self.property(Property::Event(EventProperty { id: PropertyId::from(id) }))
    }

    /// Declares a new input property without a default value.
    pub fn input(&mut self, id: &str, data_type: DataType) -> (builder: &mut Self)
        requires
            old(self)@.accepts(id@),
        ensures
            *final(self) == *final(builder),
            builder@ == old(self)@.with_property(
                PropertyView::Input { id: id@, data_type, default_value: None },
            ),
            old(self)@.wf() ==> builder@.wf(),
            forall|other: Seq<char>| #[trigger]
                builder@.has_property(other) <==> old(self)@.has_property(other) || other == id@,
    {
        self.property(
            Property::Input(
                InputProperty { id: PropertyId::from(id), data_type, default_value: None },
            ),
        )
    }

    /// Declares a new input property whose instances start out bound to `default_value`.
    pub fn input_with_default(
        &mut self,
        id: &str,
        data_type: DataType,
        default_value: Value,
    ) -> (builder: &mut Self)
        requires
            old(self)@.accepts(id@),
        ensures
            *final(self) == *final(builder),
            builder@ == old(self)@.with_property(
                PropertyView::Input { id: id@, data_type, default_value: Some(default_value@) },
            ),
            old(self)@.wf() ==> builder@.wf(),
            forall|other: Seq<char>| #[trigger]
                builder@.has_property(other) <==> old(self)@.has_property(other) || other == id@,
    {
        self.property(
            Property::Input(
                InputProperty {
                    id: PropertyId::from(id),
                    data_type,
                    default_value: Some(default_value),
                },
            ),
        )
    }

    /// Declares a new output property.
    pub fn output(&mut self, id: &str, data_type: DataType) -> (builder: &mut Self)
        requires
            old(self)@.accepts(id@),
        ensures
            *final(self) == *final(builder),
            builder@ == old(self)@.with_property(PropertyView::Output { id: id@, data_type }),
            old(self)@.wf() ==> builder@.wf(),
            forall|other: Seq<char>| #[trigger]
                builder@.has_property(other) <==> old(self)@.has_property(other) || other == id@,
    {
        self.property(Property::Output(OutputProperty { id: PropertyId::from(id), data_type }))
    }

    /// Builds a `Node`.
    pub fn build(&self) -> (node: Node)
        ensures
            node@ == self@,
    {
        self.node.clone()
    }
}

} // verus!
