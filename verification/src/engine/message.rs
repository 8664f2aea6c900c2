//! Types for inter-worker messaging.

use std::sync::Arc;

use vstd::prelude::*;

use crate::graph::graph::edge::{hook_key, hook_key_of, Hook, HookView};
use crate::graph::graph::placed_node::{PlacedNode, PlacedNodeView};
use crate::graph::graph::{Graph, GraphView};
use crate::graph::value::{Value, ValueView};

verus! {

/// Context for current point of execution.
#[derive(Debug)]
pub struct Context {
    pub graph: Arc<Graph>,
    pub node: PlacedNode,
}

/// Mathematical model of a [`Context`].
pub struct ContextView {
    pub graph: GraphView,
    pub node: PlacedNodeView,
}

impl View for Context {
    type V = ContextView;

    open spec fn view(&self) -> ContextView {
        ContextView { graph: (*self.graph)@, node: self.node@ }
    }
}

/// Represents a message that triggers a command.
#[derive(Debug)]
pub struct Instruction {
    pub context: Context,
    pub command_id: String,
}

/// Mathematical model of an [`Instruction`].
pub struct InstructionView {
    pub context: ContextView,
    pub command_id: Seq<char>,
}

impl View for Instruction {
    type V = InstructionView;

    open spec fn view(&self) -> InstructionView {
        InstructionView { context: self.context@, command_id: self.command_id@ }
    }
}

/// Message represents a type for communication between workers.
#[derive(Debug)]
pub enum Message {
    Instruction(Instruction),
}

/// Mathematical model of a [`Message`].
pub enum MessageView {
    Instruction(InstructionView),
}

impl View for Message {
    type V = MessageView;

    open spec fn view(&self) -> MessageView {
        match self {
            Message::Instruction(instruction) => MessageView::Instruction(instruction@),
        }
    }
}

/// Where the value of an input comes from when a command reads it.
#[derive(Debug)]
pub enum InputSource {
    /// An edge leads to the input: the value is that of the output on this hook.
    Fed(Hook),
    /// No edge leads to the input, and this value is bound to it.
    Bound(Value),
    /// No edge leads to the input, and no value is bound to it.
    Missing,
}

/// Mathematical model of an [`InputSource`].
pub enum InputSourceView {
    Fed(HookView),
    Bound(ValueView),
    Missing,
}

impl View for InputSource {
    type V = InputSourceView;

    open spec fn view(&self) -> InputSourceView {
        match self {
            InputSource::Fed(hook) => InputSourceView::Fed(hook@),
            InputSource::Bound(value) => InputSourceView::Bound(value@),
            InputSource::Missing => InputSourceView::Missing,
        }
    }
}

impl ContextView {
    /// Where the value of the input `input_id` of the context's instance comes
    /// from: from the output that feeds it, if an edge leads to it, and else
    /// from the value bound to it.
    pub open spec fn input(self, input_id: Seq<char>) -> InputSourceView {
        match self.graph.edge_map.input_of(hook_key(self.node.key, input_id)) {
            Some(hook) => InputSourceView::Fed(hook),
            None => if self.node.has_value(input_id) {
                InputSourceView::Bound(self.node.value(input_id))
            } else {
                InputSourceView::Missing
            },
        }
    }
}

impl Context {
    /// Constructs a `Context`.
    pub fn new(graph: Arc<Graph>, node: &PlacedNode) -> (context: Context)
        ensures
            context@ == (ContextView { graph: (*graph)@, node: node@ }),
    {
        Context { graph, node: node.clone() }
    }

    /// Tells where the value of the input `input_id` comes from.
    ///
    /// Values are not carried along the edges when an output is produced: a
    /// command that reads an input looks the producing output up at that
    /// moment, so that it never sees a value that is out of date.
    pub fn input(&self, input_id: &str) -> (source: InputSource)
        ensures
            source@ == self@.input(input_id@),
    {
        let hook = hook_key_of(self.node.key.as_str(), input_id);
        match self.graph.edge_map.input_of(hook.as_str()) {
            Some(hook) => InputSource::Fed(hook),
            None => match self.node.get_value(input_id) {
                Some(value) => InputSource::Bound(value.clone()),
                None => InputSource::Missing,
            },
        }
    }
}

impl Clone for Context {
    fn clone(&self) -> (context: Context)
        ensures
            context@ == self@,
    {
        Context { graph: Arc::clone(&self.graph), node: self.node.clone() }
    }
}

impl Message {
    /// Constructs `Message::Instruction`.
    pub fn instruction(context: Context, command_id: &str) -> (message: Message)
        ensures
            message@ == MessageView::Instruction(
                InstructionView { context: context@, command_id: command_id@ },
            ),
    {
        Message::Instruction(Instruction { context, command_id: command_id.to_owned() })
    }
}

} // verus!
