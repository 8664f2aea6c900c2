//! Properties declared for nodes.

use vstd::prelude::*;

use crate::graph::value::{DataType, Value, ValueView};

verus! {

/// Identifier of a property, unique within one node.
///
/// Two identifiers are equal exactly when they hold the same string.
#[derive(Debug, Hash, Eq, PartialOrd)]
pub struct PropertyId(String);

impl View for PropertyId {
    type V = Seq<char>;

    closed spec fn view(&self) -> Seq<char> {
        self.0@
    }
}

impl PropertyId {
    /// The identifier as a string slice.
    pub fn as_str(&self) -> (s: &str)
        ensures
            s@ == self@,
    {
        self.0.as_str()
    }
}

impl Clone for PropertyId {
    fn clone(&self) -> (id: PropertyId)
        ensures
            id@ == self@,
    {
        PropertyId(self.0.clone())
    }
}

impl PartialEq for PropertyId {
    fn eq(&self, other: &PropertyId) -> (equal: bool) {
        self.0 == other.0
    }
}

impl vstd::std_specs::cmp::PartialEqSpecImpl for PropertyId {
    open spec fn obeys_eq_spec() -> bool {
        true
    }

    open spec fn eq_spec(&self, other: &PropertyId) -> bool {
        self@ == other@
    }
}

impl From<&str> for PropertyId {
    fn from(s: &str) -> (id: PropertyId)
        ensures
            id@ == s@,
    {
        PropertyId(s.to_owned())
    }
}

impl vstd::std_specs::convert::FromSpecImpl<&str> for PropertyId {
    /// A string slice has no owned counterpart in specifications, so the result
    /// is stated over views, on `from` itself.
    open spec fn obeys_from_spec() -> bool {
        false
    }

    open spec fn from_spec(s: &str) -> PropertyId {
        arbitrary()
    }
}

/// Event can trigger a command.
#[derive(Debug, PartialOrd, PartialEq)]
pub struct EventProperty {
    /// Property's id.
    pub id: PropertyId,
}

/// Command executes specific computation inside a node.
#[derive(Debug, PartialOrd, PartialEq)]
pub struct CommandProperty {
    /// Property's id.
    pub id: PropertyId,
}

/// Input data for a node.
#[derive(Debug, PartialEq)]
pub struct InputProperty {
    /// Property's id.
    pub id: PropertyId,
    /// Property's data type.
    pub data_type: DataType,
    /// Value bound to the input of every instance until another is assigned.
    pub default_value: Option<Value>,
}

/// Output is produced by a node.
#[derive(Debug, PartialOrd, PartialEq)]
pub struct OutputProperty {
    /// Property's id.
    pub id: PropertyId,
    /// Property's data type.
    pub data_type: DataType,
}

/// Represents a property.
#[derive(Debug, PartialEq)]
pub enum Property {
    /// Event can trigger a command.
    Event(EventProperty),
    /// Command executes specific computation inside a node.
    Command(CommandProperty),
    /// Input data for a node.
    Input(InputProperty),
    /// Output is produced by a node.
    Output(OutputProperty),
}

/// Mathematical model of a [`Property`].
pub enum PropertyView {
    Event { id: Seq<char> },
    Command { id: Seq<char> },
    Input { id: Seq<char>, data_type: DataType, default_value: Option<ValueView> },
    Output { id: Seq<char>, data_type: DataType },
}

impl PropertyView {
    /// The property's id.
    pub open spec fn id(self) -> Seq<char> {
        match self {
            PropertyView::Event { id } => id,
            PropertyView::Command { id } => id,
            PropertyView::Input { id, .. } => id,
            PropertyView::Output { id, .. } => id,
        }
    }

    /// The data type of an input or an output; control properties have none.
    pub open spec fn data_type(self) -> Option<DataType> {
        match self {
            PropertyView::Input { data_type, .. } => Some(data_type),
            PropertyView::Output { data_type, .. } => Some(data_type),
            _ => None,
        }
    }

    /// The default value of an input that declares one.
    pub open spec fn default_value(self) -> Option<ValueView> {
        match self {
            PropertyView::Input { default_value, .. } => default_value,
            _ => None,
        }
    }

    /// Input or output.
    pub open spec fn is_data(self) -> bool {
        self is Input || self is Output
    }

    /// Event or command.
    pub open spec fn is_control(self) -> bool {
        self is Event || self is Command
    }

    /// Input or command: a property that has to be driven from outside.
    pub open spec fn is_source(self) -> bool {
        self is Input || self is Command
    }

    /// Event or output: a property that produces toward the outside.
    pub open spec fn is_target(self) -> bool {
        self is Event || self is Output
    }
}

impl View for EventProperty {
    type V = PropertyView;

    open spec fn view(&self) -> PropertyView {
        PropertyView::Event { id: self.id@ }
    }
}

impl View for CommandProperty {
    type V = PropertyView;

    open spec fn view(&self) -> PropertyView {
        PropertyView::Command { id: self.id@ }
    }
}

impl View for InputProperty {
    type V = PropertyView;

    open spec fn view(&self) -> PropertyView {
        PropertyView::Input {
            id: self.id@,
            data_type: self.data_type,
            default_value: match self.default_value {
                Some(value) => Some(value@),
                None => None,
            },
        }
    }
}

impl View for OutputProperty {
    type V = PropertyView;

    open spec fn view(&self) -> PropertyView {
        PropertyView::Output { id: self.id@, data_type: self.data_type }
    }
}

impl View for Property {
    type V = PropertyView;

    open spec fn view(&self) -> PropertyView {
        match self {
            Property::Event(property) => property@,
            Property::Command(property) => property@,
            Property::Input(property) => property@,
            Property::Output(property) => property@,
        }
    }
}

impl Clone for EventProperty {
    fn clone(&self) -> (property: EventProperty)
        ensures
            property@ == self@,
    {
        EventProperty { id: self.id.clone() }
    }
}

impl Clone for CommandProperty {
    fn clone(&self) -> (property: CommandProperty)
        ensures
            property@ == self@,
    {
        CommandProperty { id: self.id.clone() }
    }
}

impl Clone for InputProperty {
    fn clone(&self) -> (property: InputProperty)
        ensures
            property@ == self@,
    {
        InputProperty {
            id: self.id.clone(),
            data_type: self.data_type,
            default_value: match &self.default_value {
                Some(value) => Some(value.clone()),
                None => None,
            },
        }
    }
}

impl Clone for OutputProperty {
    fn clone(&self) -> (property: OutputProperty)
        ensures
            property@ == self@,
    {
        OutputProperty { id: self.id.clone(), data_type: self.data_type }
    }
}

impl Property {
    /// Returns property's id.
    pub fn id(&self) -> (id: &PropertyId)
        ensures
            id@ == self@.id(),
    {
        match self {
            Property::Event(property) => &property.id,
            Property::Command(property) => &property.id,
            Property::Input(property) => &property.id,
            Property::Output(property) => &property.id,
        }
    }

    /// Returns whether property is `Property::Input` or `Property::Output`.
    pub fn is_data(&self) -> (b: bool)
        ensures
            b == self@.is_data(),
    {
        self.data_type().is_some()
    }

    /// Returns whether property is `Property::Command` or `Property::Event`.
    pub fn is_control(&self) -> (b: bool)
        ensures
            b == self@.is_control(),
    {
        !self.is_data()
    }

    /// Returns whether property is `Property::Event`.
    pub fn is_event(&self) -> (b: bool)
        ensures
            b == (self@ is Event),
    {
        if let Property::Event(_) = self {
            true
        } else {
            false
        }
    }

    /// Returns whether property is `Property::Command`.
    pub fn is_command(&self) -> (b: bool)
        ensures
            b == (self@ is Command),
    {
        if let Property::Command(_) = self {
            true
        } else {
            false
        }
    }

    /// Returns whether property is `Property::Input`.
    pub fn is_input(&self) -> (b: bool)
        ensures
            b == (self@ is Input),
    {
        if let Property::Input(_) = self {
            true
        } else {
            false
        }
    }

    /// Returns whether property is `Property::Output`.
    pub fn is_output(&self) -> (b: bool)
        ensures
            b == (self@ is Output),
    {
        if let Property::Output(_) = self {
            true
        } else {
            false
        }
    }

    /// Returns whether property can be used as a source.
    pub fn is_source(&self) -> (b: bool)
        ensures
            b == self@.is_source(),
    {
        match self {
            Property::Input(_) => true,
            Property::Command(_) => true,
            _ => false,
        }
    }

    /// Returns whether property can be used as a target.
    pub fn is_target(&self) -> (b: bool)
        ensures
            b == self@.is_target(),
    {
        !self.is_source()
    }

    /// Returns property's data type if property is an input or output.
    pub fn data_type(&self) -> (data_type: Option<&DataType>)
        ensures
            match data_type {
                Some(t) => self@.data_type() == Some(*t),
                None => self@.data_type() is None,
            },
    {
        match self {
            Property::Input(property) => Some(&property.data_type),
            Property::Output(property) => Some(&property.data_type),
            _ => None,
        }
    }

    /// Returns the default value of an input that declares one.
    pub fn default_value(&self) -> (value: Option<&Value>)
        ensures
            match value {
                Some(v) => self@.default_value() == Some(v@),
                None => self@.default_value() is None,
            },
    {
        match self {
            Property::Input(property) => property.default_value.as_ref(),
            _ => None,
        }
    }
}

impl Clone for Property {
    fn clone(&self) -> (property: Property)
        ensures
            property@ == self@,
    {
        match self {
            Property::Event(p) => Property::Event(p.clone()),
            Property::Command(p) => Property::Command(p.clone()),
            Property::Input(p) => Property::Input(p.clone()),
            Property::Output(p) => Property::Output(p.clone()),
        }
    }
}

} // verus!
