//! Placed node is an instance of a schema node.

use vstd::prelude::*;

use crate::graph::graph::property_value::{PropertyValue, PropertyValueView};
use crate::graph::keys::{
    first_index, is_first, lemma_first_exists, lemma_first_index, lemma_first_unique,
    lemma_push_fresh,
};
use crate::graph::schema::node::{Node, NodeView};
use crate::graph::schema::property::{Property, PropertyId, PropertyView};
use crate::graph::value::{Value, ValueView};

verus! {

/// Represents a placed node inside a graph.
#[derive(Debug)]
pub struct PlacedNode {
    /// Schema of a node.
    pub node: Node,
    /// Unique key.
    pub key: String,
    /// Values bound to this node instance, by property; no property has two.
    pub values: Vec<PropertyValue>,
}

/// Mathematical model of a [`PlacedNode`].
pub struct PlacedNodeView {
    pub node: NodeView,
    pub key: Seq<char>,
    pub values: Seq<PropertyValueView>,
}

/// The values that a fresh instance starts out with: the default value of each
/// input that declares one, in the order of the properties.
pub open spec fn default_values(properties: Seq<PropertyView>) -> Seq<PropertyValueView>
    decreases properties.len(),
{
    if properties.len() == 0 {
        Seq::empty()
    } else {
        let earlier = default_values(properties.drop_last());
        match properties.last() {
            PropertyView::Input { id, default_value: Some(value), .. } => earlier.push(
                PropertyValueView { property_id: id, value },
            ),
            _ => earlier,
        }
    }
}

/// The ids under which a sequence of bound values stands.
pub open spec fn bound_ids(values: Seq<PropertyValueView>) -> Seq<Seq<char>> {
    values.map_values(|v: PropertyValueView| v.property_id)
}

/// The default values stand under ids of inputs that declare one, each once.
pub proof fn lemma_default_values(properties: Seq<PropertyView>)
    requires
        properties.map_values(|p: PropertyView| p.id()).no_duplicates(),
    ensures
        bound_ids(default_values(properties)).no_duplicates(),
        forall|id: Seq<char>| #[trigger]
            bound_ids(default_values(properties)).contains(id) <==> exists|j: int|
                0 <= j < properties.len() && (#[trigger] properties[j]).id() == id
                    && properties[j].default_value() is Some,
        forall|j: int|
            0 <= j < properties.len() && (#[trigger] properties[j]).default_value() is Some
                ==> default_values(properties)[first_index(
                bound_ids(default_values(properties)),
                properties[j].id(),
            )].value == properties[j].default_value().unwrap(),
    decreases properties.len(),
{
    let ids = properties.map_values(|p: PropertyView| p.id());
    let bound = bound_ids(default_values(properties));
    if properties.len() == 0 {
        assert(bound =~= Seq::empty());
    } else {
        let shorter = properties.drop_last();
        let last = properties.last();
        let shorter_ids = shorter.map_values(|p: PropertyView| p.id());
        assert(shorter_ids =~= ids.drop_last());
        assert forall|i: int, j: int|
            0 <= i < shorter_ids.len() && 0 <= j < shorter_ids.len() && i != j implies shorter_ids[i]
            != shorter_ids[j] by {
            assert(ids[i] == shorter_ids[i]);
            assert(ids[j] == shorter_ids[j]);
        }
        lemma_default_values(shorter);
        let earlier = default_values(shorter);
        let earlier_ids = bound_ids(earlier);
        assert forall|j: int| 0 <= j < shorter.len() implies (#[trigger] shorter[j]).id()
            != last.id() by {
            assert(ids[j] == shorter[j].id());
            assert(ids[properties.len() - 1] == last.id());
        }
        if last.default_value() is Some {
            let entry = PropertyValueView {
                property_id: last.id(),
                value: last.default_value().unwrap(),
            };
            assert(default_values(properties) == earlier.push(entry));
            assert(bound =~= earlier_ids.push(last.id()));
            assert(!earlier_ids.contains(last.id()));
            lemma_push_fresh(earlier_ids, last.id());
            assert forall|id: Seq<char>| #[trigger]
                bound.contains(id) <==> exists|j: int|
                    0 <= j < properties.len() && (#[trigger] properties[j]).id() == id
                        && properties[j].default_value() is Some by {
                if earlier_ids.contains(id) {
                    let j = choose|j: int|
                        0 <= j < shorter.len() && (#[trigger] shorter[j]).id() == id
                            && shorter[j].default_value() is Some;
                    assert(properties[j] == shorter[j]);
                }
                if id == last.id() {
                    assert(properties[properties.len() - 1] == last);
                }
                if exists|j: int|
                    0 <= j < properties.len() && (#[trigger] properties[j]).id() == id
                        && properties[j].default_value() is Some {
                    let j = choose|j: int|
                        0 <= j < properties.len() && (#[trigger] properties[j]).id() == id
                            && properties[j].default_value() is Some;
                    if j < shorter.len() {
                        assert(shorter[j] == properties[j]);
                    }
                }
            }
            assert forall|j: int|
                0 <= j < properties.len() && (#[trigger] properties[j]).default_value() is Some implies default_values(
                properties,
            )[first_index(bound, properties[j].id())].value
                == properties[j].default_value().unwrap() by {
                if j < shorter.len() {
                    assert(shorter[j] == properties[j]);
                    assert(earlier_ids.contains(shorter[j].id()));
                    lemma_first_exists(earlier_ids, shorter[j].id());
                    let k = first_index(earlier_ids, shorter[j].id());
                    assert(first_index(bound, shorter[j].id()) == k);
                    assert(earlier.push(entry)[k] == earlier[k]);
                } else {
                    assert(first_index(bound, last.id()) == earlier_ids.len());
                }
            }
        } else {
            assert(default_values(properties) == earlier);
            assert forall|id: Seq<char>| #[trigger]
                bound.contains(id) <==> exists|j: int|
                    0 <= j < properties.len() && (#[trigger] properties[j]).id() == id
                        && properties[j].default_value() is Some by {
                if earlier_ids.contains(id) {
                    let j = choose|j: int|
                        0 <= j < shorter.len() && (#[trigger] shorter[j]).id() == id
                            && shorter[j].default_value() is Some;
                    assert(properties[j] == shorter[j]);
                }
                if exists|j: int|
                    0 <= j < properties.len() && (#[trigger] properties[j]).id() == id
                        && properties[j].default_value() is Some {
                    let j = choose|j: int|
                        0 <= j < properties.len() && (#[trigger] properties[j]).id() == id
                            && properties[j].default_value() is Some;
                    assert(j < shorter.len());
                    assert(shorter[j] == properties[j]);
                }
            }
            assert forall|j: int|
                0 <= j < properties.len() && (#[trigger] properties[j]).default_value() is Some implies default_values(
                properties,
            )[first_index(bound, properties[j].id())].value
                == properties[j].default_value().unwrap() by {
                assert(j < shorter.len());
                assert(shorter[j] == properties[j]);
            }
        }
    }
}

impl PlacedNodeView {
    /// The ids of the properties that have a value bound.
    pub open spec fn value_ids(self) -> Seq<Seq<char>> {
        bound_ids(self.values)
    }

    /// The template is valid, and no property has two values bound.
    pub open spec fn wf(self) -> bool {
        &&& self.node.wf()
        &&& self.value_ids().no_duplicates()
    }

    /// Whether a value is bound to the property with this id.
    pub open spec fn has_value(self, property_id: Seq<char>) -> bool {
        self.value_ids().contains(property_id)
    }

    /// The value bound to the property with this id, where there is one.
    pub open spec fn value(self, property_id: Seq<char>) -> ValueView
        recommends
            self.has_value(property_id),
    {
        self.values[first_index(self.value_ids(), property_id)].value
    }

    /// The instance after `value` has been bound to the property `property_id`:
    /// in place of the value bound before, or else as the last of the values.
    pub open spec fn with_value(self, property_id: Seq<char>, value: ValueView) -> PlacedNodeView {
        let bound = PropertyValueView { property_id, value };
        PlacedNodeView {
            node: self.node,
            key: self.key,
            values: if self.has_value(property_id) {
                self.values.update(first_index(self.value_ids(), property_id), bound)
            } else {
                self.values.push(bound)
            },
        }
    }

    /// A fresh instance of `node` under `key`, with the default values bound.
    pub open spec fn placed(node: NodeView, key: Seq<char>) -> PlacedNodeView {
        PlacedNodeView { node, key, values: default_values(node.properties) }
    }

    /// A fresh instance of a valid template is valid, and has a value bound to
    /// exactly the inputs that declare a default value.
    pub proof fn lemma_placed(node: NodeView, key: Seq<char>)
        requires
            node.wf(),
        ensures
            Self::placed(node, key).wf(),
            forall|id: Seq<char>| #[trigger]
                Self::placed(node, key).has_value(id) <==> node.has_property(id) && node.property(
                    id,
                ).default_value() is Some,
            forall|id: Seq<char>|
                node.has_property(id) && node.property(id).default_value() is Some
                    ==> #[trigger] Self::placed(node, key).value(id) == node.property(
                    id,
                ).default_value().unwrap(),
    {
        lemma_default_values(node.properties);
        let placed = Self::placed(node, key);
        let ids = node.property_ids();
        assert forall|id: Seq<char>| #[trigger]
            placed.has_value(id) <==> node.has_property(id) && node.property(
                id,
            ).default_value() is Some by {
            if placed.has_value(id) {
                let j = choose|j: int|
                    0 <= j < node.properties.len() && (#[trigger] node.properties[j]).id() == id
                        && node.properties[j].default_value() is Some;
                assert(ids[j] == id);
                lemma_first_unique(ids, j);
            }
            if node.has_property(id) && node.property(id).default_value() is Some {
                lemma_first_exists(ids, id);
                let j = first_index(ids, id);
                assert(node.properties[j].id() == id);
            }
        }
        assert forall|id: Seq<char>|
            node.has_property(id) && node.property(id).default_value() is Some implies #[trigger] placed.value(
            id,
        ) == node.property(id).default_value().unwrap() by {
            lemma_first_exists(ids, id);
            let j = first_index(ids, id);
            assert(node.properties[j].id() == id);
        }
    }

    /// Binding a value keeps the instance valid, binds exactly that property
    /// anew, and leaves the other values as they were.
    pub proof fn lemma_with_value(self, property_id: Seq<char>, value: ValueView)
        ensures
            self.wf() ==> self.with_value(property_id, value).wf(),
            forall|id: Seq<char>| #[trigger]
                self.with_value(property_id, value).has_value(id) <==> self.has_value(id) || id
                    == property_id,
            self.with_value(property_id, value).value(property_id) == value,
            forall|id: Seq<char>|
                self.has_value(id) && id != property_id ==> #[trigger] self.with_value(
                    property_id,
                    value,
                ).value(id) == self.value(id),
    {
        let ids = self.value_ids();
        let after = self.with_value(property_id, value);
        if self.has_value(property_id) {
            lemma_first_exists(ids, property_id);
            let k = first_index(ids, property_id);
            assert(after.value_ids() =~= ids);
            assert forall|id: Seq<char>|
                self.has_value(id) && id != property_id implies #[trigger] after.value(id)
                == self.value(id) by {
                lemma_first_exists(ids, id);
                let i = first_index(ids, id);
                assert(ids[i] == id && ids[k] == property_id);
            }
        } else {
            assert(after.value_ids() =~= ids.push(property_id));
            lemma_push_fresh(ids, property_id);
            assert forall|id: Seq<char>|
                self.has_value(id) && id != property_id implies #[trigger] after.value(id)
                == self.value(id) by {
                lemma_first_exists(ids, id);
            }
        }
    }
}

impl View for PlacedNode {
    type V = PlacedNodeView;

    open spec fn view(&self) -> PlacedNodeView {
        PlacedNodeView {
            node: self.node@,
            key: self.key@,
            values: self.values@.map_values(|v: PropertyValue| v@),
        }
    }
}

impl PlacedNode {
    /// Constructs a new `PlacedNode`.
    pub fn new(node: &Node, key: &str) -> (placed: PlacedNode)
        ensures
            placed@ == PlacedNodeView::placed(node@, key@),
    {
        let mut values: Vec<PropertyValue> = Vec::new();
        let mut i: usize = 0;
        proof {
            assert(node@.properties.take(0) =~= Seq::empty());
            assert(values@.map_values(|v: PropertyValue| v@) =~= Seq::empty());
        }
        while i < node.properties.len()
            invariant
                i <= node.properties.len(),
                values@.map_values(|v: PropertyValue| v@) == default_values(
                    node@.properties.take(i as int),
                ),
            decreases node.properties.len() - i,
        {
            let property = &node.properties[i];
            proof {
                let upto = node@.properties.take(i + 1);
                assert(upto.drop_last() =~= node@.properties.take(i as int));
                assert(upto.last() == property@);
            }
            let ghost before = values@.map_values(|v: PropertyValue| v@);
            if let Some(value) = property.default_value() {
                let bound = PropertyValue {
                    property_id: property.id().clone(),
                    value: value.clone(),
                };
                values.push(bound);
                proof {
                    assert(values@.map_values(|v: PropertyValue| v@) =~= before.push(bound@));
                }
            }
            i += 1;
        }
        proof {
            assert(node@.properties.take(i as int) =~= node@.properties);
        }
        PlacedNode { node: node.clone(), key: key.to_owned(), values }
    }

    /// Returns node's property.
    ///
    /// The template of the instance has to declare the property.
    pub fn get_property(&self, property_id: &str) -> (property: &Property)
        requires
            self@.node.has_property(property_id@),
        ensures
            property@ == self@.node.property(property_id@),
    {
        match self.node.get_property(property_id) {
            Some(property) => property,
            None => vstd::pervasive::unreached(),
        }
    }

    /// Position of the value bound to the property with this id.
    pub fn find_value(&self, property_id: &str) -> (found: Option<usize>)
        ensures
            match found {
                Some(i) => self@.has_value(property_id@) && is_first(
                    self@.value_ids(),
                    property_id@,
                    i as int,
                ) && i == first_index(self@.value_ids(), property_id@),
                None => !self@.has_value(property_id@),
            },
    {
        let wanted = PropertyId::from(property_id);
        let mut i: usize = 0;
        while i < self.values.len()
            invariant
                i <= self.values.len(),
                wanted@ == property_id@,
                forall|j: int| 0 <= j < i ==> self@.value_ids()[j] != property_id@,
            decreases self.values.len() - i,
        {
            if self.values[i].property_id == wanted {
                proof {
                    assert(self@.value_ids()[i as int] == property_id@);
                    lemma_first_index(self@.value_ids(), property_id@, i as int);
                }
                return Some(i);
            }
            i += 1;
        }
        None
    }

    /// Returns the value bound to the property with this id, if there is one.
    pub fn get_value(&self, property_id: &str) -> (found: Option<&Value>)
        ensures
            match found {
                Some(value) => self@.has_value(property_id@) && value@ == self@.value(property_id@),
                None => !self@.has_value(property_id@),
            },
    {
        match self.find_value(property_id) {
            Some(i) => {
                proof {
                    assert(self@.values[i as int] == self.values[i as int]@);
                }
                Some(&self.values[i].value)
            },
            None => None,
        }
    }

    /// Binds `value` to the property `property_id`, in place of the value that
    /// was bound to it, if any.
    pub fn set_value(&mut self, property_id: &str, value: Value)
        ensures
            final(self)@ == old(self)@.with_value(property_id@, value@),
            old(self)@.wf() ==> final(self)@.wf(),
    {
        proof {
            old(self)@.lemma_with_value(property_id@, value@);
        }
        let bound = PropertyValue::new(property_id, value);
        match self.find_value(property_id) {
            Some(i) => {
                self.values.set(i, bound);
                proof {
                    assert(self@.values =~= old(self)@.values.update(i as int, bound@));
                }
            },
            None => {
                self.values.push(bound);
                proof {
                    assert(self@.values =~= old(self)@.values.push(bound@));
                }
            },
        }
    }
}

impl Clone for PlacedNode {
    fn clone(&self) -> (placed: PlacedNode)
        ensures
            placed@ == self@,
    {
        let mut values: Vec<PropertyValue> = Vec::new();
        let mut i: usize = 0;
        while i < self.values.len()
            invariant
                i <= self.values.len(),
                values@.len() == i,
                forall|j: int| 0 <= j < i ==> values@[j]@ == self.values@[j]@,
            decreases self.values.len() - i,
        {
            values.push(self.values[i].clone());
            i += 1;
        }
        let placed = PlacedNode { node: self.node.clone(), key: self.key.clone(), values };
        proof {
            assert(placed@.values =~= self@.values);
        }
        placed
    }
}

impl PartialEq for PlacedNode {
    /// Two instances are the same instance when they have the same key.
    fn eq(&self, other: &PlacedNode) -> (equal: bool) {
        self.key == other.key
    }
}

impl vstd::std_specs::cmp::PartialEqSpecImpl for PlacedNode {
    open spec fn obeys_eq_spec() -> bool {
        true
    }

    open spec fn eq_spec(&self, other: &PlacedNode) -> bool {
        self.key@ == other.key@
    }
}

} // verus!
