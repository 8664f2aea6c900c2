//! Error type to be used inside `engine` module.

use vstd::prelude::*;

use crate::graph::error::{quote, quoted_message, GraphError};

verus! {

/// What went wrong inside the engine.
#[derive(Debug, Clone, Copy, PartialEq, Eq, Structural)]
pub enum EngineErrorKind {
    /// A graph could not be put together.
    Graph,
    /// The configuration does not describe a usable engine.
    InvalidConfig,
    /// The library declares no node template with the requested id.
    UnknownNode,
    /// The node template declares no property with the requested id.
    UnknownProperty,
    /// The property is not of the kind that was asked for.
    WrongKind,
    /// No processor is registered for the template of the instance.
    UnknownProcessor,
    /// The command of an instruction is not one of its instance, or its
    /// processor does not know it.
    UnknownCommand,
    /// A command was not carried out because an input that it reads has no value.
    MissingInput,
    /// An error that was made from a message alone.
    Other,
}

/// Error representing an error with an engine.
#[derive(Debug)]
pub struct EngineError {
    /// What went wrong.
    pub kind: EngineErrorKind,
    /// Error message.
    pub message: String,
}

/// Mathematical model of an [`EngineError`].
pub struct EngineErrorView {
    pub kind: EngineErrorKind,
    pub message: Seq<char>,
}

impl View for EngineError {
    type V = EngineErrorView;

    open spec fn view(&self) -> EngineErrorView {
        EngineErrorView { kind: self.kind, message: self.message@ }
    }
}

impl EngineErrorView {
    /// The error of `kind` about `subject`, which its message names between quotes.
    pub open spec fn report(kind: EngineErrorKind, subject: Seq<char>) -> EngineErrorView {
        EngineErrorView { kind, message: Self::message_of(kind, subject) }
    }

    /// The message of an error of this kind about `subject`.
    pub open spec fn message_of(kind: EngineErrorKind, subject: Seq<char>) -> Seq<char> {
        match kind {
            EngineErrorKind::Graph => subject,
            EngineErrorKind::InvalidConfig => quote("Invalid configuration: "@, subject, ""@),
            EngineErrorKind::UnknownNode => quote("Node "@, subject, " not found."@),
            EngineErrorKind::UnknownProperty => quote("Property "@, subject, " not found."@),
            EngineErrorKind::WrongKind => quote("Property "@, subject, " is of another kind."@),
            EngineErrorKind::UnknownProcessor => quote("No processor for node "@, subject, ""@),
            EngineErrorKind::UnknownCommand => quote("Command "@, subject, " not recognized."@),
            EngineErrorKind::MissingInput => quote("Input "@, subject, " has no value."@),
            EngineErrorKind::Other => subject,
        }
    }
}

impl EngineError {
    /// Constructs a new `EngineError`.
    pub fn new(message: &str) -> (error: EngineError)
        ensures
            error@ == EngineErrorView::report(EngineErrorKind::Other, message@),
    {
        EngineError { kind: EngineErrorKind::Other, message: message.to_owned() }
    }

    /// Constructs the error of `kind` about `subject`.
    pub fn report(kind: EngineErrorKind, subject: &str) -> (error: EngineError)
        ensures
            error@ == EngineErrorView::report(kind, subject@),
    {
        let message = match kind {
            EngineErrorKind::Graph => subject.to_owned(),
            EngineErrorKind::InvalidConfig => quoted_message(
                "Invalid configuration: ",
                subject,
                "",
            ),
            EngineErrorKind::UnknownNode => quoted_message("Node ", subject, " not found."),
            EngineErrorKind::UnknownProperty => quoted_message("Property ", subject, " not found."),
            EngineErrorKind::WrongKind => quoted_message(
                "Property ",
                subject,
                " is of another kind.",
            ),
            EngineErrorKind::UnknownProcessor => quoted_message(
                "No processor for node ",
                subject,
                "",
            ),
            EngineErrorKind::UnknownCommand => quoted_message(
                "Command ",
                subject,
                " not recognized.",
            ),
            EngineErrorKind::MissingInput => quoted_message("Input ", subject, " has no value."),
            EngineErrorKind::Other => subject.to_owned(),
        };
        EngineError { kind, message }
    }

    /// The error's message.
    pub fn description(&self) -> (message: &str)
        ensures
            message@ == self@.message,
    {
        self.message.as_str()
    }
}

impl From<String> for EngineError {
    fn from(s: String) -> (error: EngineError)
        ensures
            error@ == EngineErrorView::report(EngineErrorKind::Other, s@),
    {
        EngineError { kind: EngineErrorKind::Other, message: s }
    }
}

impl vstd::std_specs::convert::FromSpecImpl<String> for EngineError {
    /// The result is stated over views, on `from` itself.
    open spec fn obeys_from_spec() -> bool {
        false
    }

    open spec fn from_spec(s: String) -> EngineError {
        arbitrary()
    }
}

impl From<GraphError> for EngineError {
    fn from(e: GraphError) -> (error: EngineError)
        ensures
            error@ == EngineErrorView::report(EngineErrorKind::Graph, e@.message),
    {
        EngineError { kind: EngineErrorKind::Graph, message: e.message }
    }
}

impl vstd::std_specs::convert::FromSpecImpl<GraphError> for EngineError {
    /// The result is stated over views, on `from` itself.
    open spec fn obeys_from_spec() -> bool {
        false
    }

    open spec fn from_spec(e: GraphError) -> EngineError {
        arbitrary()
    }
}

} // verus!
