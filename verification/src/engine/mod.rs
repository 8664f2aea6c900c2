//! Engine for executing graph based programs.
//!
//! An engine owns the library of node templates and one bounded channel of
//! messages. Workers take instructions out of the channel, carry them out with
//! the processors registered with them, and put the instructions that follow
//! back in. A graph is executed by seeding the channel once, with an
//! instruction for each of the graph's entry points; from there on the edges
//! carry the flow, for as long as there are instructions left and the channel
//! is open.

use std::sync::Arc;

use crossbeam::channel::{Receiver, Sender};
use vstd::prelude::*;

use crate::engine::channel::Delivery;
use crate::engine::error::{EngineError, EngineErrorKind, EngineErrorView};
use crate::engine::library::Library;
use crate::engine::message::{Context, ContextView, InstructionView, Message, MessageView};
use crate::engine::processor::Processor;
use crate::engine::worker::Worker;
use crate::graph::graph::edge::{hook_key, hook_key_of};
use crate::graph::graph::placed_node::PlacedNodeView;
use crate::graph::graph::{Graph, GraphView};
use crate::graph::schema::property::PropertyView;
use crate::graph::schema::SchemaView;

pub mod channel;
pub mod error;
pub mod library;
pub mod message;
pub mod processor;
pub mod schema;
pub mod worker;

verus! {

/// How many messages the channel of an engine holds before senders have to wait.
pub const CHANNEL_CAPACITY: usize = 10;

/// Configuration of the pool of workers.
#[derive(Debug)]
pub struct WorkerConfig {
    pool_size: usize,
}

impl WorkerConfig {
    #[verifier::type_invariant]
    spec fn inv(self) -> bool {
        self.pool_size > 0
    }

    /// The number of workers.
    pub closed spec fn spec_pool_size(self) -> usize {
        self.pool_size
    }

    /// Constructs the configuration of a pool of `pool_size` workers; a pool has
    /// at least one.
    pub fn new(pool_size: usize) -> (config: Result<WorkerConfig, EngineError>)
        ensures
            match config {
                Ok(config) => pool_size > 0 && config.spec_pool_size() == pool_size,
                Err(error) => pool_size == 0 && error@ == EngineErrorView::report(
                    EngineErrorKind::InvalidConfig,
                    "worker.pool_size"@,
                ),
            },
    {
        if pool_size == 0 {
            Err(EngineError::report(EngineErrorKind::InvalidConfig, "worker.pool_size"))
        } else {
            Ok(WorkerConfig { pool_size })
        }
    }

    /// The number of workers, which is positive.
    pub fn pool_size(&self) -> (pool_size: usize)
        ensures
            pool_size == self.spec_pool_size(),
            pool_size > 0,
    {
        proof {
            use_type_invariant(self);
        }
        self.pool_size
    }
}

/// Configuration of an engine.
#[derive(Debug)]
pub struct EngineConfig {
    pub worker: WorkerConfig,
}

impl EngineConfig {
    /// Constructs the configuration of an engine with `pool_size` workers.
    pub fn new(pool_size: usize) -> (config: Result<EngineConfig, EngineError>)
        ensures
            match config {
                Ok(config) => pool_size > 0 && config.worker.spec_pool_size() == pool_size,
                Err(error) => pool_size == 0 && error@ == EngineErrorView::report(
                    EngineErrorKind::InvalidConfig,
                    "worker.pool_size"@,
                ),
            },
    {
        match WorkerConfig::new(pool_size) {
            Ok(worker) => Ok(EngineConfig { worker }),
            Err(error) => Err(error),
        }
    }
}

/// The instructions for those of `properties` that are entry points of the
/// instance `node`: its commands to which no edge leads.
pub open spec fn entries_of(
    graph: GraphView,
    node: PlacedNodeView,
    properties: Seq<PropertyView>,
) -> Seq<MessageView>
    decreases properties.len(),
{
    if properties.len() == 0 {
        Seq::empty()
    } else {
        let earlier = entries_of(graph, node, properties.drop_last());
        let property = properties.last();
        if property is Command && !graph.edge_map.feeds(hook_key(node.key, property.id())) {
            earlier.push(
                MessageView::Instruction(
                    InstructionView {
                        context: ContextView { graph, node },
                        command_id: property.id(),
                    },
                ),
            )
        } else {
            earlier
        }
    }
}

/// The instructions for the entry points of the instances `nodes`, instance by
/// instance.
pub open spec fn entries(graph: GraphView, nodes: Seq<PlacedNodeView>) -> Seq<MessageView>
    decreases nodes.len(),
{
    if nodes.len() == 0 {
        Seq::empty()
    } else {
        entries(graph, nodes.drop_last()) + entries_of(
            graph,
            nodes.last(),
            nodes.last().node.properties,
        )
    }
}

/// Returns the instructions that start the execution of a graph: one for each
/// command to which no edge leads, in the order of the instances and of their
/// properties.
pub fn seed_instructions(graph: &Arc<Graph>) -> (messages: Vec<Message>)
    ensures
        messages@.map_values(|m: Message| m@) == entries(graph@, graph@.nodes),
{
    let mut messages: Vec<Message> = Vec::new();
    let mut i: usize = 0;
    proof {
        assert(graph@.nodes.take(0) =~= Seq::empty());
        assert(messages@.map_values(|m: Message| m@) =~= Seq::empty());
    }
    while i < graph.nodes.len()
        invariant
            i <= graph.nodes.len(),
            messages@.map_values(|m: Message| m@) == entries(graph@, graph@.nodes.take(i as int)),
        decreases graph.nodes.len() - i,
    {
        let node = &graph.nodes[i];
        let ghost before = messages@.map_values(|m: Message| m@);
        proof {
            let upto = graph@.nodes.take(i + 1);
            assert(upto.drop_last() =~= graph@.nodes.take(i as int));
            assert(upto.last() == node@);
            assert(node@.node.properties.take(0) =~= Seq::empty());
            assert(before + entries_of(graph@, node@, node@.node.properties.take(0)) =~= before);
        }
        let mut j: usize = 0;
        while j < node.node.properties.len()
            invariant
                j <= node.node.properties.len(),
                messages@.map_values(|m: Message| m@) == before + entries_of(
                    graph@,
                    node@,
                    node@.node.properties.take(j as int),
                ),
            decreases node.node.properties.len() - j,
        {
            let property = &node.node.properties[j];
            proof {
                let upto = node@.node.properties.take(j + 1);
                assert(upto.drop_last() =~= node@.node.properties.take(j as int));
                assert(upto.last() == property@);
            }
            let ghost so_far = messages@.map_values(|m: Message| m@);
            if property.is_command() {
                let name = hook_key_of(node.key.as_str(), property.id().as_str());
                if !graph.edge_map.feeds(name.as_str()) {
                    let context = Context::new(Arc::clone(graph), node);
                    let message = Message::instruction(context, property.id().as_str());
                    messages.push(message);
                    proof {
                        assert(messages@.map_values(|m: Message| m@) =~= so_far.push(message@));
                        assert(so_far.push(message@) =~= before + entries_of(
                            graph@,
                            node@,
                            node@.node.properties.take(j + 1),
                        ));
                    }
                }
            }
            j += 1;
        }
        proof {
            assert(node@.node.properties.take(j as int) =~= node@.node.properties);
        }
        i += 1;
    }
    proof {
        assert(graph@.nodes.take(i as int) =~= graph@.nodes);
    }
    messages
}

/// Used to coordinate executing of graphs.
///
/// The engine does not find out when a graph has run to its end: its workers go
/// on waiting for instructions until the channel is closed, which it is once
/// the engine and all the workers are gone.
pub struct Engine {
    /// Config for this engine.
    pub config: EngineConfig,
    /// Library used by this engine.
    pub library: Arc<Library>,
    message_sender: Sender<Message>,
    message_receiver: Receiver<Message>,
}

impl Engine {
    /// The number of workers that the engine is configured for.
    pub closed spec fn pool_size(&self) -> usize {
        self.config.worker.spec_pool_size()
    }

    /// The catalog of the engine's library.
    pub closed spec fn catalog(&self) -> SchemaView {
        (*self.library)@
    }

    /// Constructs a new `Engine`.
    pub fn new(config: EngineConfig, library: Library) -> (engine: Engine)
        ensures
            engine.pool_size() == config.worker.spec_pool_size(),
            engine.catalog() == library@,
    {
        let (message_sender, message_receiver) = channel::open(CHANNEL_CAPACITY);
        Engine { config, library: Arc::new(library), message_sender, message_receiver }
    }

    /// Constructs a worker on the channel of this engine, without processors.
    pub fn worker<P: Processor>(&self, id: u64) -> (worker: Worker<P>)
        ensures
            worker.spec_id() == id,
            worker.processors() == Seq::<P>::empty(),
    {
        Worker::new(
            id,
            channel::another_sender(&self.message_sender),
            channel::another_receiver(&self.message_receiver),
        )
    }

    /// Constructs the workers of the pool: as many as the engine is configured
    /// for, numbered from 0 in their order, each on the channel of this engine
    /// and without processors.
    pub fn workers<P: Processor>(&self) -> (workers: Vec<Worker<P>>)
        ensures
            workers@.len() == self.pool_size(),
            forall|i: int| 0 <= i < workers@.len() ==> (#[trigger] workers@[i]).spec_id() == i,
            forall|i: int|
                0 <= i < workers@.len() ==> (#[trigger] workers@[i]).processors() == Seq::<
                    P,
                >::empty(),
    {
        let pool_size = self.config.worker.pool_size();
        let mut workers: Vec<Worker<P>> = Vec::new();
        let mut i: usize = 0;
        while i < pool_size
            invariant
                i <= pool_size,
                pool_size == self.pool_size(),
                workers@.len() == i,
                forall|j: int| 0 <= j < i ==> (#[trigger] workers@[j]).spec_id() == j,
                forall|j: int|
                    0 <= j < i ==> (#[trigger] workers@[j]).processors() == Seq::<P>::empty(),
            decreases pool_size - i,
        {
            workers.push(self.worker(i as u64));
            i += 1;
        }
        workers
    }

    /// Puts a message into the channel, and waits to do so while it is full.
    /// Where the channel does not take the message, the message is handed back.
    pub fn submit(&self, message: Message) -> (result: Result<(), Message>)
        ensures
            result matches Err(returned) ==> returned == message,
    {
        channel::send(&self.message_sender, message)
    }

    /// Execute a graph on this engine: puts the instructions for its entry
    /// points into the channel, in their order and up to the first one that the
    /// channel does not take. An engine must be ran first, or this waits once
    /// the channel is full.
    pub fn execute(&self, graph: Graph) -> (delivery: Delivery)
        ensures
            delivery.sent <= entries(graph@, graph@.nodes).len(),
            delivery.unsent@.map_values(|m: Message| m@) == entries(graph@, graph@.nodes).skip(
                delivery.sent as int,
            ),
    {
        let graph = Arc::new(graph);
        let seeds = seed_instructions(&graph);
        let delivery = channel::send_all(&self.message_sender, seeds);
        proof {
            let all = seeds@.map_values(|m: Message| m@);
            assert(all.len() == seeds@.len());
            assert(delivery.unsent@.map_values(|m: Message| m@) =~= all.skip(delivery.sent as int));
        }
        delivery
    }
}

} // verus!
