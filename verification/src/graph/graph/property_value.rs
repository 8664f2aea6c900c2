//! Value assigned to a property.

use vstd::prelude::*;

use crate::graph::schema::property::PropertyId;
use crate::graph::value::{Value, ValueView};

verus! {

/// Represents a value assigned to a property.
#[derive(Debug)]
pub struct PropertyValue {
    /// Id of a property.
    pub property_id: PropertyId,
    /// Assigned value.
    pub value: Value,
}

/// Mathematical model of a [`PropertyValue`].
pub struct PropertyValueView {
    pub property_id: Seq<char>,
    pub value: ValueView,
}

impl View for PropertyValue {
    type V = PropertyValueView;

    open spec fn view(&self) -> PropertyValueView {
        PropertyValueView { property_id: self.property_id@, value: self.value@ }
    }
}

impl PropertyValue {
    /// Constructs a `PropertyValue`.
    pub fn new(property_id: &str, value: Value) -> (bound: PropertyValue)
        ensures
            bound@ == (PropertyValueView { property_id: property_id@, value: value@ }),
    {
        PropertyValue { property_id: PropertyId::from(property_id), value }
    }
}

impl Clone for PropertyValue {
    fn clone(&self) -> (bound: PropertyValue)
        ensures
            bound@ == self@,
    {
        PropertyValue { property_id: self.property_id.clone(), value: self.value.clone() }
    }
}

} // verus!
