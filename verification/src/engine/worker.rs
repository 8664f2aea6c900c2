//! What a worker decides: which instructions follow from the events that a
//! command fires, and what becomes of an instruction that it is handed.
//!
//! Carrying out an instruction reads the graph and the processors and changes
//! neither. So it does no harm where two workers carry out instructions for one
//! instance at the same time, and an instruction sees the graph as it was built
//! whenever it is carried out.

use std::sync::Arc;

use crossbeam::channel::{Receiver, Sender};
use vstd::prelude::*;

use crate::engine::channel;
use crate::engine::channel::Delivery;

use crate::engine::error::{EngineError, EngineErrorKind, EngineErrorView};
use crate::engine::library::Library;
use crate::engine::message::{
    Context, ContextView, Instruction, InstructionView, Message, MessageView,
};
use crate::engine::processor::action_processor::{
    action_routes, missing_reference, ActionProcessor,
};
use crate::engine::processor::Processor;
use crate::graph::graph::edge::{hook_key, hook_key_of, Hook, HookView};
use crate::graph::graph::placed_node::PlacedNode;
use crate::graph::graph::{Graph, GraphBuilderView, GraphView};
use crate::graph::schema::property::PropertyId;

verus! {

/// The instructions that follow where the hooks `hooks` are reached: one for
/// each hook on a command of an instance of the graph, in the order of the hooks.
pub open spec fn triggered_by(graph: GraphView, hooks: Seq<HookView>) -> Seq<MessageView>
    decreases hooks.len(),
{
    if hooks.len() == 0 {
        Seq::empty()
    } else {
        let earlier = triggered_by(graph, hooks.drop_last());
        let hook = hooks.last();
        if hook.property is Command && graph.has_node(hook.node.key) {
            earlier.push(
                MessageView::Instruction(
                    InstructionView {
                        context: ContextView { graph, node: graph.node(hook.node.key) },
                        command_id: hook.property.id(),
                    },
                ),
            )
        } else {
            earlier
        }
    }
}

/// The instructions that follow where the instance `source_key` fires `events`:
/// for each event in turn, those for the hooks that its edges lead to.
pub open spec fn routed(graph: GraphView, source_key: Seq<char>, events: Seq<Seq<char>>) -> Seq<
    MessageView,
>
    decreases events.len(),
{
    if events.len() == 0 {
        Seq::empty()
    } else {
        routed(graph, source_key, events.drop_last()) + triggered_by(
            graph,
            graph.edge_map.outputs_of(hook_key(source_key, events.last())),
        )
    }
}

/// How many instructions follow where hooks are reached depends on the keys of
/// the graph's instances alone.
pub proof fn lemma_triggered_len(one: GraphView, other: GraphView, hooks: Seq<HookView>)
    requires
        one.node_keys() == other.node_keys(),
    ensures
        triggered_by(one, hooks).len() == triggered_by(other, hooks).len(),
    decreases hooks.len(),
{
    if hooks.len() > 0 {
        lemma_triggered_len(one, other, hooks.drop_last());
    }
}

/// Every edge that is drawn from an event to a command is routed: once the
/// builder has drawn it, the event triggers one instruction more than before,
/// and that last instruction is the one for the command.
pub proof fn lemma_connection_is_routed(
    builder: GraphBuilderView,
    source_key: Seq<char>,
    event_id: Seq<char>,
    target_key: Seq<char>,
    command_id: Seq<char>,
)
    requires
        builder.connect_error(source_key, event_id, target_key, command_id) is None,
        builder.graph.property(source_key, event_id) is Event,
    ensures
        routed(
            builder.after_connect(source_key, event_id, target_key, command_id).graph,
            source_key,
            seq![event_id],
        ).len() == routed(builder.graph, source_key, seq![event_id]).len() + 1,
        routed(
            builder.after_connect(source_key, event_id, target_key, command_id).graph,
            source_key,
            seq![event_id],
        ).last() == MessageView::Instruction(
            InstructionView {
                context: ContextView {
                    graph: builder.after_connect(source_key, event_id, target_key, command_id).graph,
                    node: builder.after_connect(
                        source_key,
                        event_id,
                        target_key,
                        command_id,
                    ).graph.node(target_key),
                },
                command_id,
            },
        ),
{
    let before = builder.graph;
    let after = builder.after_connect(source_key, event_id, target_key, command_id).graph;
    let edge = builder.edge_between(source_key, event_id, target_key, command_id);
    let name = hook_key(source_key, event_id);
    let fired = seq![event_id];
    let reached = before.edge_map.outputs_of(name);

    before.lemma_node(source_key);
    before.lemma_node(target_key);
    before.node(source_key).node.lemma_property(event_id);
    before.node(target_key).node.lemma_property(command_id);
    assert(edge.source.key() == name);
    assert(edge.target.property is Command);
    assert(after.node_keys() == before.node_keys());

    assert(after.edge_map.edges.drop_last() =~= before.edge_map.edges);
    assert(after.edge_map.edges.last() == edge);
    assert(after.edge_map.outputs_of(name) == reached.push(edge.target));
    assert(reached.push(edge.target).drop_last() =~= reached);

    reveal_with_fuel(routed, 2);
    assert(fired.drop_last() =~= Seq::<Seq<char>>::empty());
    assert(fired.last() == event_id);
    assert(routed(after, source_key, fired) =~= triggered_by(after, reached.push(edge.target)));
    assert(routed(before, source_key, fired) =~= triggered_by(before, reached));
    lemma_triggered_len(after, before, reached);
}

/// Follows the edges that leave the events `events` of the instance `source`,
/// and returns an instruction for each command that they lead to.
pub fn route_events(graph: &Arc<Graph>, source: &PlacedNode, events: &Vec<PropertyId>) -> (messages:
    Vec<Message>)
    ensures
        messages@.map_values(|m: Message| m@) == routed(
            graph@,
            source@.key,
            events@.map_values(|e: PropertyId| e@),
        ),
{
    let ghost fired = events@.map_values(|e: PropertyId| e@);
    let mut messages: Vec<Message> = Vec::new();
    let mut a: usize = 0;
    proof {
        assert(fired.take(0) =~= Seq::empty());
        assert(messages@.map_values(|m: Message| m@) =~= Seq::empty());
    }
    while a < events.len()
        invariant
            a <= events.len(),
            fired == events@.map_values(|e: PropertyId| e@),
            messages@.map_values(|m: Message| m@) == routed(
                graph@,
                source@.key,
                fired.take(a as int),
            ),
        decreases events.len() - a,
    {
        let name = hook_key_of(source.key.as_str(), events[a].as_str());
        let hooks = graph.edge_map.outputs_of(name.as_str());
        let ghost reached = hooks@.map_values(|h: Hook| h@);
        let ghost before = messages@.map_values(|m: Message| m@);
        proof {
            let upto = fired.take(a + 1);
            assert(upto.drop_last() =~= fired.take(a as int));
            assert(upto.last() == events[a as int]@);
            assert(reached.take(0) =~= Seq::empty());
            assert(before + triggered_by(graph@, reached.take(0)) =~= before);
        }
        let mut b: usize = 0;
        while b < hooks.len()
            invariant
                b <= hooks.len(),
                reached == hooks@.map_values(|h: Hook| h@),
                messages@.map_values(|m: Message| m@) == before + triggered_by(
                    graph@,
                    reached.take(b as int),
                ),
            decreases hooks.len() - b,
        {
            let hook = &hooks[b];
            proof {
                let upto = reached.take(b + 1);
                assert(upto.drop_last() =~= reached.take(b as int));
                assert(upto.last() == hook@);
            }
            let ghost so_far = messages@.map_values(|m: Message| m@);
            if hook.property.is_command() {
                if let Some(at) = graph.find_node(hook.node.key.as_str()) {
                    proof {
                        assert(graph@.nodes[at as int] == graph.nodes[at as int]@);
                    }
                    let context = Context::new(Arc::clone(graph), &graph.nodes[at]);
                    let message = Message::instruction(context, hook.property.id().as_str());
                    messages.push(message);
                    proof {
                        assert(messages@.map_values(|m: Message| m@) =~= so_far.push(message@));
                        assert(so_far.push(message@) =~= before + triggered_by(
                            graph@,
                            reached.take(b + 1),
                        ));
                    }
                }
            }
            b += 1;
        }
        proof {
            assert(reached.take(b as int) =~= reached);
        }
        a += 1;
    }
    proof {
        assert(fired.take(a as int) =~= fired);
    }
    messages
}

/// Whether every one of `processors` keeps to what it says in advance.
pub open spec fn all_specified<P: Processor>(processors: Seq<P>) -> bool {
    forall|i: int| 0 <= i < processors.len() ==> (#[trigger] processors[i]).specified()
}

/// Whether `instruction` names a command of its instance.
pub open spec fn names_command(instruction: InstructionView) -> bool {
    let node = instruction.context.node.node;
    node.has_property(instruction.command_id) && node.property(instruction.command_id) is Command
}

/// The first of `processors` that stands for the template: the first whose
/// router knows it.
pub open spec fn processor_for<P: Processor>(
    processors: Seq<P>,
    template_id: Seq<char>,
) -> Option<P>
    decreases processors.len(),
{
    if processors.len() == 0 {
        None
    } else if processors.first().routes().knows(template_id) {
        Some(processors.first())
    } else {
        processor_for(processors.drop_first(), template_id)
    }
}

/// What a worker with the processors `processors` makes of `instruction`: the
/// instructions that follow from it, or the reason why it is dropped.
///
/// The checks are made in this order. The command has to be a command of the
/// instance. A processor has to be registered for the template of the
/// instance. That processor has to carry the command out: it skips a command
/// that cannot be carried out, for want of an input or for any other reason of
/// its own. The events that it returns are then routed along their edges.
pub open spec fn handling<P: Processor>(processors: Seq<P>, instruction: InstructionView) -> Result<
    Seq<MessageView>,
    EngineErrorView,
> {
    let node = instruction.context.node;
    let command = instruction.command_id;
    if !names_command(instruction) {
        Err(EngineErrorView::report(EngineErrorKind::UnknownCommand, command))
    } else {
        match processor_for(processors, node.node.id) {
            None => Err(EngineErrorView::report(EngineErrorKind::UnknownProcessor, node.node.id)),
            Some(processor) => match processor.outcome(instruction.context, command) {
                Err(reason) => Err(reason),
                Ok(events) => Ok(routed(instruction.context.graph, node.key, events)),
            },
        }
    }
}

/// What became of one turn of a worker.
#[derive(Debug)]
pub enum Step {
    /// The channel is empty and closed: there is nothing left to do.
    Closed,
    /// This instruction was taken out of the channel and dropped, for this reason.
    Dropped { instruction: Instruction, error: EngineError },
    /// This instruction was taken out of the channel and carried out; `delivery`
    /// tells what became of the instructions that follow from it.
    Handled { instruction: Instruction, delivery: Delivery },
}

impl Step {
    /// Tells whether the worker's work ends with this turn. It ends where the
    /// channel is closed: where nothing came out of it any more, or where it did
    /// not take an instruction that was to go in.
    pub fn ends_worker(&self) -> (ends: bool)
        ensures
            ends == match *self {
                Step::Closed => true,
                Step::Dropped { .. } => false,
                Step::Handled { delivery, .. } => delivery.unsent@.len() > 0,
            },
    {
        match self {
            Step::Closed => true,
            Step::Dropped { .. } => false,
            Step::Handled { delivery, .. } => delivery.unsent.len() > 0,
        }
    }
}

/// Carries out instructions with the processors registered with it.
pub struct Worker<P: Processor> {
    id: u64,
    outbox: Sender<Message>,
    inbox: Receiver<Message>,
    processors: Vec<P>,
}

impl<P: Processor> Worker<P> {
    /// The number that tells this worker from the others of its pool.
    pub closed spec fn spec_id(&self) -> u64 {
        self.id
    }

    /// The registered processors, in the order of their registration.
    pub closed spec fn processors(&self) -> Seq<P> {
        self.processors@
    }

    /// Constructs a worker without processors, which takes its instructions out
    /// of `inbox` and puts those that follow into `outbox`.
    pub fn new(id: u64, outbox: Sender<Message>, inbox: Receiver<Message>) -> (worker: Worker<P>)
        ensures
            worker.spec_id() == id,
            worker.processors() == Seq::<P>::empty(),
    {
        Worker { id, outbox, inbox, processors: Vec::new() }
    }

    /// The number that tells this worker from the others of its pool.
    pub fn id(&self) -> (id: u64)
        ensures
            id == self.spec_id(),
    {
        self.id
    }

    /// Registers a processor, after those registered before.
    pub fn register(&mut self, processor: P)
        ensures
            final(self).spec_id() == old(self).spec_id(),
            final(self).processors() == old(self).processors().push(processor),
    {
        self.processors.push(processor);
    }

    /// Carries out an instruction: returns the instructions that follow from it,
    /// or the reason why it is dropped.
    ///
    /// With processors that keep to what they say in advance, the result is
    /// what [`handling`] says. With any processors, an instruction that names no
    /// command of its instance is dropped for that reason, and the
    /// instructions that follow are those to which the events of some list lead.
    pub fn handle_instruction(&self, instruction: &Instruction) -> (result: Result<
        Vec<Message>,
        EngineError,
    >)
        ensures
            all_specified(self.processors()) ==> match result {
                Ok(messages) => handling(self.processors(), instruction@) matches Ok(follow)
                    && follow == messages@.map_values(|m: Message| m@),
                Err(error) => handling(self.processors(), instruction@) matches Err(reason)
                    && reason == error@,
            },
            !names_command(instruction@) ==> (result matches Err(error) && error@
                == EngineErrorView::report(
                EngineErrorKind::UnknownCommand,
                instruction@.command_id,
            )),
            result matches Ok(messages) ==> exists|events: Seq<Seq<char>>|
                messages@.map_values(|m: Message| m@) == #[trigger] routed(
                    instruction@.context.graph,
                    instruction@.context.node.key,
                    events,
                ),
    {
        let node = &instruction.context.node;
        let command_id = instruction.command_id.as_str();
        let template_id = node.node.id.as_str();
        let is_command = match node.node.get_property(command_id) {
            Some(property) => property.is_command(),
            None => false,
        };
        if !is_command {
            return Err(EngineError::report(EngineErrorKind::UnknownCommand, command_id));
        }
        let mut i: usize = 0;
        proof {
            assert(self.processors().skip(0) =~= self.processors());
        }
        while i < self.processors.len()
            invariant
                i <= self.processors.len(),
                template_id@ == instruction@.context.node.node.id,
                command_id@ == instruction@.command_id,
                node@ == instruction@.context.node,
                names_command(instruction@),
                all_specified(self.processors()) ==> processor_for(
                    self.processors(),
                    template_id@,
                ) == processor_for(self.processors().skip(i as int), template_id@),
            decreases self.processors.len() - i,
        {
            let processor = &self.processors[i];
            proof {
                let rest = self.processors().skip(i as int);
                assert(rest.first() == *processor);
                assert(rest.drop_first() =~= self.processors().skip(i + 1));
            }
            proof {
                if all_specified(self.processors()) {
                    assert(self.processors()[i as int].specified());
                }
            }
            if processor.router().knows(template_id) {
                return match processor.handle(&instruction.context, command_id) {
                    Ok(events) => {
                        let messages = route_events(&instruction.context.graph, node, &events);
                        proof {
                            assert(messages@.map_values(|m: Message| m@) == routed(
                                instruction@.context.graph,
                                instruction@.context.node.key,
                                events@.map_values(|e: PropertyId| e@),
                            ));
                        }
                        Ok(messages)
                    },
                    Err(reason) => Err(reason),
                };
            }
            i += 1;
        }
        Err(EngineError::report(EngineErrorKind::UnknownProcessor, template_id))
    }
}

impl<P: Processor> Worker<P> {
    /// Whether `step` reports of its instruction what the processors of this
    /// worker make of it.
    ///
    /// With processors that keep to what they say in advance, a dropped
    /// instruction is one that [`handling`] refuses, for the reason reported,
    /// and a handled one is one whose follow-ups, as [`handling`] gives them,
    /// went into the channel in their order up to the first of the unsent.
    /// With any processors, an instruction that names no command of its
    /// instance is dropped for that reason, and never handled.
    pub open spec fn accounts_for(&self, step: Step) -> bool {
        &&& all_specified(self.processors()) ==> match step {
            Step::Closed => true,
            Step::Dropped { instruction, error } => handling(self.processors(), instruction@)
                matches Err(reason) && reason == error@,
            Step::Handled { instruction, delivery } => {
                &&& handling(self.processors(), instruction@) matches Ok(follow)
                &&& delivery.sent <= follow.len()
                &&& delivery.unsent@.map_values(|m: Message| m@) == follow.skip(
                    delivery.sent as int,
                )
            },
        }
        &&& match step {
            Step::Closed => true,
            Step::Dropped { instruction, error } => !names_command(instruction@) ==> error@
                == EngineErrorView::report(
                EngineErrorKind::UnknownCommand,
                instruction@.command_id,
            ),
            Step::Handled { instruction, .. } => names_command(instruction@),
        }
    }

    /// Takes the turn that follows on what came out of the channel. Where
    /// nothing came out, the channel is closed. Where an instruction came out,
    /// it is carried out, the instructions that follow from it are put into the
    /// channel, in their order and up to the first one that the channel does
    /// not take, and the turn reports that very instruction with what became
    /// of it.
    pub fn turn(&self, received: Option<Message>) -> (step: Step)
        ensures
            received is None <==> step is Closed,
            received matches Some(Message::Instruction(taken)) ==> match step {
                Step::Closed => false,
                Step::Dropped { instruction, .. } => instruction == taken,
                Step::Handled { instruction, .. } => instruction == taken,
            },
            self.accounts_for(step),
    {
        match received {
            None => Step::Closed,
            Some(Message::Instruction(instruction)) => match self.handle_instruction(&instruction) {
                Err(error) => Step::Dropped { instruction, error },
                Ok(messages) => {
                    let delivery = channel::send_all(&self.outbox, messages);
                    proof {
                        let all = messages@.map_values(|m: Message| m@);
                        assert(all.len() == messages@.len());
                        assert(delivery.unsent@.map_values(|m: Message| m@) =~= all.skip(
                            delivery.sent as int,
                        ));
                    }
                    Step::Handled { instruction, delivery }
                },
            },
        }
    }

    /// Takes one turn: waits for the next message and takes the
    /// [`turn`](Worker::turn) that follows on it.
    ///
    /// Which instruction comes out of the channel is for the channel to say;
    /// what the step reports of it is what
    /// [`handle_instruction`](Worker::handle_instruction) makes of it.
    pub fn step(&self) -> (step: Step)
        ensures
            self.accounts_for(step),
    {
        self.turn(channel::receive(&self.inbox))
    }
}

impl Worker<ActionProcessor> {
    /// Registers the processors of the nodes that the engine knows how to run,
    /// as far as the library declares them.
    pub fn register_processors(&mut self, library: &Arc<Library>) -> (registered: Result<
        (),
        EngineError,
    >)
        ensures
            final(self).spec_id() == old(self).spec_id(),
            match registered {
                Ok(_) => {
                    &&& missing_reference(library@) is None
                    &&& final(self).processors().len() == old(self).processors().len() + 1
                    &&& final(self).processors().drop_last() == old(self).processors()
                    &&& final(self).processors().last().routes() == action_routes()
                    &&& all_specified(old(self).processors()) ==> all_specified(
                        final(self).processors(),
                    )
                },
                Err(error) => {
                    &&& missing_reference(library@) == Some(error@)
                    &&& final(self).processors() == old(self).processors()
                },
            },
    {
        match ActionProcessor::new(library) {
            Ok(processor) => {
                self.register(processor);
                proof {
                    assert(self.processors().drop_last() =~= old(self).processors());
                    assert(processor.specified());
                }
                Ok(())
            },
            Err(error) => Err(error),
        }
    }
}

} // verus!
