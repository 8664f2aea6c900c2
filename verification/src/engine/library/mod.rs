//! Contains schema utils.

use vstd::prelude::*;

use crate::engine::error::{EngineError, EngineErrorKind, EngineErrorView};
use crate::graph::schema::node::Node;
use crate::graph::schema::property::{
    CommandProperty, EventProperty, InputProperty, OutputProperty, Property, PropertyView,
};
use crate::graph::schema::{Schema, SchemaView};

pub mod basic;

verus! {

/// The catalog of node templates that an engine runs.
pub struct Library {
    pub schema: Schema,
}

/// A command of a node template.
pub struct CommandReference {
    pub node: Node,
    pub property: CommandProperty,
}

/// An event of a node template.
pub struct EventReference {
    pub node: Node,
    pub property: EventProperty,
}

/// An input of a node template.
pub struct InputReference {
    pub node: Node,
    pub property: InputProperty,
}

/// An output of a node template.
pub struct OutputReference {
    pub node: Node,
    pub property: OutputProperty,
}

/// The four kinds of property.
#[derive(Debug, Clone, Copy, PartialEq, Eq, Structural)]
pub enum PropertyKind {
    Event,
    Command,
    Input,
    Output,
}

/// The kind of a property.
pub open spec fn kind_of(property: PropertyView) -> PropertyKind {
    match property {
        PropertyView::Event { .. } => PropertyKind::Event,
        PropertyView::Command { .. } => PropertyKind::Command,
        PropertyView::Input { .. } => PropertyKind::Input,
        PropertyView::Output { .. } => PropertyKind::Output,
    }
}

/// Why the property `property_id` of the template `node_id` cannot be had as one
/// of `kind`, if it cannot: the template is looked for first, then the property,
/// then its kind.
pub open spec fn lookup_error(
    schema: SchemaView,
    node_id: Seq<char>,
    property_id: Seq<char>,
    kind: PropertyKind,
) -> Option<EngineErrorKind> {
    if !schema.has_node(node_id) {
        Some(EngineErrorKind::UnknownNode)
    } else if !schema.node(node_id).has_property(property_id) {
        Some(EngineErrorKind::UnknownProperty)
    } else if kind_of(schema.node(node_id).property(property_id)) != kind {
        Some(EngineErrorKind::WrongKind)
    } else {
        None
    }
}

/// The error reported for a lookup that fails: it names the template where that
/// is not found, and the property otherwise.
pub open spec fn lookup_report(
    kind: EngineErrorKind,
    node_id: Seq<char>,
    property_id: Seq<char>,
) -> EngineErrorView {
    EngineErrorView::report(
        kind,
        if kind == EngineErrorKind::UnknownNode {
            node_id
        } else {
            property_id
        },
    )
}

impl View for Library {
    type V = SchemaView;

    open spec fn view(&self) -> SchemaView {
        self.schema@
    }
}

impl Library {
    /// Returns a `Schema` supported by current implementation of the engine.
    pub fn get() -> (library: Library)
        ensures
            library@ == basic::catalog(),
            library@.wf(),
    {
        Library { schema: basic::schema() }
    }

    /// The template `node_id` and its property `property_id`, if both exist.
    fn lookup(&self, node_id: &str, property_id: &str) -> (found: Result<
        (&Node, &Property),
        EngineError,
    >)
        ensures
            match found {
                Ok((node, property)) => self@.has_node(node_id@) && node@ == self@.node(node_id@)
                    && node@.has_property(property_id@) && property@ == node@.property(
                    property_id@,
                ),
                Err(error) => (error@.kind == EngineErrorKind::UnknownNode
                    || error@.kind == EngineErrorKind::UnknownProperty) && lookup_error(
                    self@,
                    node_id@,
                    property_id@,
                    PropertyKind::Event,
                ) == Some(error@.kind) && error@ == lookup_report(
                    error@.kind,
                    node_id@,
                    property_id@,
                ),
            },
    {
        let node = match self.schema.get_node(node_id) {
            Some(node) => node,
            None => {
                return Err(EngineError::report(EngineErrorKind::UnknownNode, node_id));
            },
        };
        match node.get_property(property_id) {
            Some(property) => Ok((node, property)),
            None => Err(EngineError::report(EngineErrorKind::UnknownProperty, property_id)),
        }
    }

    /// Returns the command `command_id` of the template `node_id`.
    pub fn get_command(&self, node_id: &str, command_id: &str) -> (found: Result<
        CommandReference,
        EngineError,
    >)
        ensures
            match found {
                Ok(reference) => lookup_error(self@, node_id@, command_id@, PropertyKind::Command)
                    is None && reference.node@ == self@.node(node_id@) && reference.property@
                    == self@.node(node_id@).property(command_id@),
                Err(error) => lookup_error(self@, node_id@, command_id@, PropertyKind::Command)
                    == Some(error@.kind) && error@ == lookup_report(
                    error@.kind,
                    node_id@,
                    command_id@,
                ),
            },
    {
        let (node, property) = self.lookup(node_id, command_id)?;
        if let Property::Command(property) = property {
            Ok(CommandReference { node: node.clone(), property: property.clone() })
        } else {
            Err(EngineError::report(EngineErrorKind::WrongKind, command_id))
        }
    }

    /// Returns the event `event_id` of the template `node_id`.
    pub fn get_event(&self, node_id: &str, event_id: &str) -> (found: Result<
        EventReference,
        EngineError,
    >)
        ensures
            match found {
                Ok(reference) => lookup_error(self@, node_id@, event_id@, PropertyKind::Event)
                    is None && reference.node@ == self@.node(node_id@) && reference.property@
                    == self@.node(node_id@).property(event_id@),
                Err(error) => lookup_error(self@, node_id@, event_id@, PropertyKind::Event) == Some(
                    error@.kind,
                ) && error@ == lookup_report(error@.kind, node_id@, event_id@),
            },
    {
        let (node, property) = self.lookup(node_id, event_id)?;
        if let Property::Event(property) = property {
            Ok(EventReference { node: node.clone(), property: property.clone() })
        } else {
            Err(EngineError::report(EngineErrorKind::WrongKind, event_id))
        }
    }

    /// Returns the input `input_id` of the template `node_id`.
    pub fn get_input(&self, node_id: &str, input_id: &str) -> (found: Result<
        InputReference,
        EngineError,
    >)
        ensures
            match found {
                Ok(reference) => lookup_error(self@, node_id@, input_id@, PropertyKind::Input)
                    is None && reference.node@ == self@.node(node_id@) && reference.property@
                    == self@.node(node_id@).property(input_id@),
                Err(error) => lookup_error(self@, node_id@, input_id@, PropertyKind::Input) == Some(
                    error@.kind,
                ) && error@ == lookup_report(error@.kind, node_id@, input_id@),
            },
    {
        let (node, property) = self.lookup(node_id, input_id)?;
        if let Property::Input(property) = property {
            Ok(InputReference { node: node.clone(), property: property.clone() })
        } else {
            Err(EngineError::report(EngineErrorKind::WrongKind, input_id))
        }
    }

    /// Returns the output `output_id` of the template `node_id`.
    pub fn get_output(&self, node_id: &str, output_id: &str) -> (found: Result<
        OutputReference,
        EngineError,
    >)
        ensures
            match found {
                Ok(reference) => lookup_error(self@, node_id@, output_id@, PropertyKind::Output)
                    is None && reference.node@ == self@.node(node_id@) && reference.property@
                    == self@.node(node_id@).property(output_id@),
                Err(error) => lookup_error(self@, node_id@, output_id@, PropertyKind::Output)
                    == Some(error@.kind) && error@ == lookup_report(
                    error@.kind,
                    node_id@,
                    output_id@,
                ),
            },
    {
        let (node, property) = self.lookup(node_id, output_id)?;
        if let Property::Output(property) = property {
            Ok(OutputReference { node: node.clone(), property: property.clone() })
        } else {
            Err(EngineError::report(EngineErrorKind::WrongKind, output_id))
        }
    }
}

} // verus!
