//! Error type to be used inside `graph` module.

use vstd::prelude::*;
use vstd::string::StringExecFns;

verus! {

/// What went wrong while a graph was put together.
#[derive(Debug, Clone, Copy, PartialEq, Eq, Structural)]
pub enum GraphErrorKind {
    /// The schema declares no node template with the requested id.
    UnknownTemplate,
    /// The graph already holds an instance under the requested key.
    DuplicateKey,
    /// The graph holds no such instance, or its template declares no such property.
    UnknownProperty,
    /// A value was assigned to an event or a command.
    NotADataProperty,
    /// A value, or the two ends of an edge, do not agree on the data type.
    TypeMismatch,
    /// Both ends of an edge lie on the same instance.
    SelfConnection,
    /// The source of an edge is neither an event nor an output.
    InvalidSourceRole,
    /// The target of an edge is neither a command nor an input.
    InvalidTargetRole,
    /// An event was wired to something other than a command.
    EventRequiresCommand,
    /// A command was wired to something other than an event.
    CommandRequiresEvent,
    /// The very same edge exists already.
    DuplicateEdge,
    /// An input has neither a bound value nor an edge that feeds it.
    MissingValue,
    /// An error that was made from a message alone.
    Other,
}

/// Error representing an error with a graph.
#[derive(Debug)]
pub struct GraphError {
    /// What went wrong.
    pub kind: GraphErrorKind,
    /// Key of the instance concerned; empty where none is.
    pub instance_key: String,
    /// Id of the property concerned; empty where none is.
    pub property_id: String,
    /// Error message.
    pub message: String,
}

/// Mathematical model of a [`GraphError`].
pub struct GraphErrorView {
    pub kind: GraphErrorKind,
    pub instance_key: Seq<char>,
    pub property_id: Seq<char>,
    pub message: Seq<char>,
}

impl View for GraphError {
    type V = GraphErrorView;

    open spec fn view(&self) -> GraphErrorView {
        GraphErrorView {
            kind: self.kind,
            instance_key: self.instance_key@,
            property_id: self.property_id@,
            message: self.message@,
        }
    }
}

/// `before`, then `quoted` between single quotes, then `after`.
pub open spec fn quote(before: Seq<char>, quoted: Seq<char>, after: Seq<char>) -> Seq<char> {
    before + seq!['\''] + quoted + seq!['\''] + after
}

impl GraphErrorView {
    /// The error that the graph builder reports for `kind`, on the instance
    /// `instance_key` and the property `property_id`.
    ///
    /// `subject` is what the message names between quotes, for the kinds whose
    /// message names anything.
    pub open spec fn report(
        kind: GraphErrorKind,
        instance_key: Seq<char>,
        property_id: Seq<char>,
        subject: Seq<char>,
    ) -> GraphErrorView {
        GraphErrorView { kind, instance_key, property_id, message: Self::message_of(kind, subject) }
    }

    /// The message of an error of this kind about `subject`.
    pub open spec fn message_of(kind: GraphErrorKind, subject: Seq<char>) -> Seq<char> {
        match kind {
            GraphErrorKind::UnknownTemplate => quote("Node with id "@, subject, " not found."@),
            GraphErrorKind::DuplicateKey => quote("Duplicate node key "@, subject, ""@),
            GraphErrorKind::UnknownProperty => quote("Node property "@, subject, " not found."@),
            GraphErrorKind::NotADataProperty => "Can only assign values to data properties."@,
            GraphErrorKind::TypeMismatch => "Incompatible types."@,
            GraphErrorKind::SelfConnection => "Cannot connect to self."@,
            GraphErrorKind::InvalidSourceRole => "Invalid source property."@,
            GraphErrorKind::InvalidTargetRole => "Invalid target property."@,
            GraphErrorKind::EventRequiresCommand => "Event can only be hooked to a command."@,
            GraphErrorKind::CommandRequiresEvent => "Command can only be triggered by an event."@,
            GraphErrorKind::DuplicateEdge => quote("Edge "@, subject, " already exists."@),
            GraphErrorKind::MissingValue => quote("No value assigned for "@, subject, ""@),
            GraphErrorKind::Other => subject,
        }
    }
}

/// Builds `before`, then `quoted` between single quotes, then `after`.
pub fn quoted_message(before: &str, quoted: &str, after: &str) -> (message: String)
    ensures
        message@ == quote(before@, quoted@, after@),
{
    proof {
        reveal_strlit("'");
        assert("'"@ =~= seq!['\'']);
    }
    let mut message = before.to_owned();
    message.append("'");
    message.append(quoted);
    message.append("'");
    message.append(after);
    message
}

impl GraphError {
    /// Constructs a new `GraphError`.
    pub fn new(message: &str) -> (error: GraphError)
        ensures
            error@ == GraphErrorView::report(
                GraphErrorKind::Other,
                Seq::empty(),
                Seq::empty(),
                message@,
            ),
    {
        GraphError {
            kind: GraphErrorKind::Other,
            instance_key: String::new(),
            property_id: String::new(),
            message: message.to_owned(),
        }
    }

    /// Constructs the error of `kind` about the instance `instance_key` and its
    /// property `property_id`, whose message names `subject`.
    pub fn report(
        kind: GraphErrorKind,
        instance_key: &str,
        property_id: &str,
        subject: &str,
    ) -> (error: GraphError)
        ensures
            error@ == GraphErrorView::report(kind, instance_key@, property_id@, subject@),
    {
        let message = match kind {
            GraphErrorKind::UnknownTemplate => quoted_message(
                "Node with id ",
                subject,
                " not found.",
            ),
            GraphErrorKind::DuplicateKey => quoted_message("Duplicate node key ", subject, ""),
            GraphErrorKind::UnknownProperty => quoted_message(
                "Node property ",
                subject,
                " not found.",
            ),
            GraphErrorKind::NotADataProperty => {
                "Can only assign values to data properties.".to_owned()
            },
            GraphErrorKind::TypeMismatch => "Incompatible types.".to_owned(),
            GraphErrorKind::SelfConnection => "Cannot connect to self.".to_owned(),
            GraphErrorKind::InvalidSourceRole => "Invalid source property.".to_owned(),
            GraphErrorKind::InvalidTargetRole => "Invalid target property.".to_owned(),
            GraphErrorKind::EventRequiresCommand => {
                "Event can only be hooked to a command.".to_owned()
            },
            GraphErrorKind::CommandRequiresEvent => {
                "Command can only be triggered by an event.".to_owned()
            },
            GraphErrorKind::DuplicateEdge => quoted_message("Edge ", subject, " already exists."),
            GraphErrorKind::MissingValue => quoted_message("No value assigned for ", subject, ""),
            GraphErrorKind::Other => subject.to_owned(),
        };
        GraphError {
            kind,
            instance_key: instance_key.to_owned(),
            property_id: property_id.to_owned(),
            message,
        }
    }
}

impl GraphError {
    /// The error's message.
    pub fn description(&self) -> (message: &str)
        ensures
            message@ == self@.message,
    {
        self.message.as_str()
    }
}

impl From<String> for GraphError {
    fn from(s: String) -> (error: GraphError)
        ensures
            error@ == GraphErrorView::report(GraphErrorKind::Other, Seq::empty(), Seq::empty(), s@),
    {
        GraphError {
            kind: GraphErrorKind::Other,
            instance_key: String::new(),
            property_id: String::new(),
            message: s,
        }
    }
}

impl vstd::std_specs::convert::FromSpecImpl<String> for GraphError {
    /// The result is stated over views, on `from` itself.
    open spec fn obeys_from_spec() -> bool {
        false
    }

    open spec fn from_spec(s: String) -> GraphError {
        arbitrary()
    }
}

} // verus!
