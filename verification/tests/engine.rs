use std::sync::Arc;

use graph_engine::engine::channel::{after_send, next_waiting, send_all, Delivery};
use graph_engine::engine::error::{EngineError, EngineErrorKind};
use graph_engine::engine::library::basic::{action, integer, minus, plus, printer, repeat};
use graph_engine::engine::library::Library;
use graph_engine::engine::message::{Context, InputSource, Instruction, Message};
use graph_engine::engine::processor::action_processor::ActionProcessor;
use graph_engine::engine::processor::{Processor, Router};
use graph_engine::engine::worker::{route_events, Step, Worker};
use graph_engine::engine::{seed_instructions, Engine, EngineConfig, WorkerConfig, CHANNEL_CAPACITY};
use graph_engine::graph::error::{GraphError, GraphErrorKind};
use graph_engine::graph::graph::placed_node::PlacedNode;
use graph_engine::graph::graph::Graph;
use graph_engine::graph::schema::node::Node;
use graph_engine::graph::schema::property::PropertyId;
use graph_engine::graph::schema::Schema;
use graph_engine::graph::value::{DataType, Value};

fn build_graph(schema: &Schema) -> Result<Graph, GraphError> {
    let mut gb = Graph::builder(schema);
    let a1 = gb.node("action", "a1")?;
    let r1 = gb.node("repeat", "r1")?;
    let p1 = gb.node("printer", "p1")?;
    let minus = gb.node("minus", "minus")?;
    let plus = gb.node("plus", "plus")?;
    let six = gb.node("integer", "six")?;
    let four = gb.node("integer", "four")?;
    let three = gb.node("integer", "three")?;

    gb.assign(&r1, "times", Value::Integer(3))?;
    gb.assign(&six, "value", Value::Integer(6))?;
    gb.assign(&four, "value", Value::Integer(4))?;
    gb.assign(&three, "value", Value::Integer(3))?;

    gb.connect(&a1, "triggered", &r1, "start")?;
    gb.connect(&r1, "executed", &p1, "print")?;
    gb.connect(&six, "return-value", &plus, "a")?;
    gb.connect(&four, "return-value", &plus, "b")?;
    gb.connect(&plus, "c", &minus, "a")?;
    gb.connect(&three, "return-value", &minus, "b")?;
    gb.connect(&minus, "c", &p1, "content")?;

    gb.build()
}

fn instruction(message: &Message) -> &Instruction {
    match message {
        Message::Instruction(instruction) => instruction,
    }
}

#[test]
fn engine_basic() {
    let schema = graph_engine::engine::schema::get();
    let graph = build_graph(&schema).unwrap();
    assert_eq!(graph.nodes.len(), 8);
    assert_eq!(graph.edge_map.edges.len(), 7);

    let engine_config = EngineConfig::new(2).unwrap();
    let engine = Engine::new(engine_config, Library::get());
    assert_eq!(engine.config.worker.pool_size(), 2);

    let mut worker: Worker<ActionProcessor> = engine.worker(0);
    worker.register_processors(&engine.library).unwrap();

    // The one entry point is the command of the action node.
    let delivery = engine.execute(graph);
    assert_eq!(delivery.sent, 1);
    assert!(delivery.unsent.is_empty());

    // The worker triggers the action, which starts the repeat node; for that
    // node no processor is registered.
    match worker.step() {
        Step::Handled { instruction, delivery } => {
            assert_eq!(instruction.context.node.key, "a1");
            assert_eq!(instruction.command_id, "trigger");
            assert_eq!(delivery.sent, 1);
            assert!(delivery.unsent.is_empty());
        }
        other => panic!("unexpected step: {:?}", other),
    }
    match worker.step() {
        Step::Dropped { instruction, error } => {
            assert_eq!(instruction.context.node.key, "r1");
            assert_eq!(instruction.command_id, "start");
            assert_eq!(error.kind, EngineErrorKind::UnknownProcessor);
            assert_eq!(error.message, "No processor for node 'repeat'");
        }
        other => panic!("unexpected step: {:?}", other),
    }
}

#[test]
fn engine_schema_and_library_declare_the_same_nodes() {
    let schema = graph_engine::engine::schema::get();
    let library = Library::get();
    let ids = |schema: &Schema| -> Vec<String> {
        schema.nodes.iter().map(|node| String::from(node.id.as_str())).collect()
    };
    assert_eq!(ids(&schema), vec!["action", "repeat", "printer", "plus", "minus", "integer"]);
    assert_eq!(ids(&library.schema), vec!["action", "integer", "minus", "plus", "printer", "repeat"]);
    for node in &schema.nodes {
        let other = library.schema.get_node(node.id.as_str()).unwrap();
        assert_eq!(node.properties, other.properties);
    }
}

#[test]
fn catalog_nodes() {
    let properties = |node: &Node| -> Vec<String> {
        node.properties.iter().map(|p| String::from(p.id().as_str())).collect()
    };
    assert_eq!(action::get().id.as_str(), action::ID);
    assert_eq!(properties(&action::get()), vec![action::COMMAND_TRIGGER, action::EVENT_TRIGGERED]);
    assert_eq!(properties(&integer::get()), vec![integer::INPUT_VALUE, integer::OUTPUT_RETURN_VALUE]);
    assert_eq!(properties(&minus::get()), vec![minus::INPUT_A, minus::INPUT_B, minus::OUTPUT_C]);
    assert_eq!(properties(&plus::get()), vec![plus::INPUT_A, plus::INPUT_B, plus::OUTPUT_C]);
    assert_eq!(properties(&printer::get()), vec![printer::COMMAND_PRINT, printer::INPUT_CONTENT]);
    assert_eq!(
        properties(&repeat::get()),
        vec![repeat::COMMAND_START, repeat::EVENT_EXECUTED, repeat::INPUT_TIMES]
    );
    assert!(action::get().get_property("trigger").unwrap().is_command());
    assert!(action::get().get_property("triggered").unwrap().is_event());
    assert_eq!(integer::get().get_property("value").unwrap().data_type(), Some(&DataType::Integer));
    assert!(minus::get().get_property("c").unwrap().is_output());
    assert_eq!(plus::get().id.as_str(), "plus");
    assert_eq!(minus::get().id.as_str(), "minus");
}

#[test]
fn library_resolves_references_by_kind() {
    let library = Library::get();

    let command = library.get_command("action", "trigger").unwrap();
    assert_eq!(command.node.id.as_str(), "action");
    assert_eq!(command.property.id.as_str(), "trigger");
    let event = library.get_event("action", "triggered").unwrap();
    assert_eq!(event.property.id.as_str(), "triggered");
    let input = library.get_input("printer", "content").unwrap();
    assert_eq!(input.property.id.as_str(), "content");
    assert_eq!(input.property.data_type, DataType::Integer);
    assert_eq!(input.property.default_value, None);
    let output = library.get_output("integer", "return-value").unwrap();
    assert_eq!(output.node.id.as_str(), "integer");
    assert_eq!(output.property.data_type, DataType::Integer);

    let error = |result: Result<(), EngineError>| -> (EngineErrorKind, String) {
        let error = result.unwrap_err();
        (error.kind, error.message)
    };
    assert_eq!(
        error(library.get_command("nothing", "trigger").map(|_| ())),
        (EngineErrorKind::UnknownNode, String::from("Node 'nothing' not found."))
    );
    assert_eq!(
        error(library.get_command("action", "nothing").map(|_| ())),
        (EngineErrorKind::UnknownProperty, String::from("Property 'nothing' not found."))
    );
    assert_eq!(
        error(library.get_command("action", "triggered").map(|_| ())),
        (EngineErrorKind::WrongKind, String::from("Property 'triggered' is of another kind."))
    );
    assert_eq!(error(library.get_event("action", "trigger").map(|_| ())).0, EngineErrorKind::WrongKind);
    assert_eq!(error(library.get_input("integer", "return-value").map(|_| ())).0, EngineErrorKind::WrongKind);
    assert_eq!(error(library.get_output("integer", "value").map(|_| ())).0, EngineErrorKind::WrongKind);
    assert_eq!(error(library.get_event("nothing", "x").map(|_| ())).0, EngineErrorKind::UnknownNode);
    assert_eq!(error(library.get_input("printer", "x").map(|_| ())).0, EngineErrorKind::UnknownProperty);
    assert_eq!(error(library.get_output("nothing", "x").map(|_| ())).0, EngineErrorKind::UnknownNode);
}

#[test]
fn engine_error_messages() {
    let plain = EngineError::new("something");
    assert_eq!(plain.kind, EngineErrorKind::Other);
    assert_eq!(plain.message, "something");
    assert_eq!(plain.description(), "something");
    assert_eq!(EngineError::from(String::from("else")).message, "else");

    let from_graph = EngineError::from(GraphError::report(GraphErrorKind::DuplicateKey, "k", "", "k"));
    assert_eq!(from_graph.kind, EngineErrorKind::Graph);
    assert_eq!(from_graph.message, "Duplicate node key 'k'");

    let cases = [
        (EngineErrorKind::Graph, "x"),
        (EngineErrorKind::InvalidConfig, "Invalid configuration: 'x'"),
        (EngineErrorKind::UnknownNode, "Node 'x' not found."),
        (EngineErrorKind::UnknownProperty, "Property 'x' not found."),
        (EngineErrorKind::WrongKind, "Property 'x' is of another kind."),
        (EngineErrorKind::UnknownProcessor, "No processor for node 'x'"),
        (EngineErrorKind::UnknownCommand, "Command 'x' not recognized."),
        (EngineErrorKind::MissingInput, "Input 'x' has no value."),
        (EngineErrorKind::Other, "x"),
    ];
    for (kind, message) in cases {
        let error = EngineError::report(kind, "x");
        assert_eq!(error.kind, kind);
        assert_eq!(error.message, message);
    }
}

#[test]
fn configuration_needs_a_worker() {
    assert_eq!(WorkerConfig::new(1).unwrap().pool_size(), 1);
    assert_eq!(WorkerConfig::new(64).unwrap().pool_size(), 64);
    let none = WorkerConfig::new(0).unwrap_err();
    assert_eq!(none.kind, EngineErrorKind::InvalidConfig);
    assert_eq!(none.message, "Invalid configuration: 'worker.pool_size'");
    assert_eq!(EngineConfig::new(0).unwrap_err().kind, EngineErrorKind::InvalidConfig);
    assert_eq!(EngineConfig::new(3).unwrap().worker.pool_size(), 3);
    assert_eq!(CHANNEL_CAPACITY, 10);
}

#[test]
fn router_returns_the_events_of_the_first_route() {
    let ids = |events: &[&str]| -> Vec<PropertyId> { events.iter().map(|e| PropertyId::from(*e)).collect() };
    let names = |events: Option<Vec<PropertyId>>| -> Option<Vec<String>> {
        events.map(|events| events.iter().map(|e| String::from(e.as_str())).collect())
    };

    let mut router = Router::new();
    assert!(!router.knows("repeat"));
    assert_eq!(names(router.fired("repeat", "start")), None);

    router.route("repeat", "start", ids(&["times"]), ids(&["executed", "done"]));
    router.route("repeat", "stop", ids(&[]), ids(&[]));
    router.route("repeat", "start", ids(&[]), ids(&["other"]));
    router.route("action", "trigger", ids(&[]), ids(&["triggered"]));

    assert!(router.knows("repeat"));
    assert!(router.knows("action"));
    assert!(!router.knows("printer"));
    assert_eq!(
        names(router.fired("repeat", "start")),
        Some(vec![String::from("executed"), String::from("done")])
    );
    assert_eq!(names(router.fired("repeat", "stop")), Some(vec![]));
    assert_eq!(names(router.fired("action", "trigger")), Some(vec![String::from("triggered")]));
    assert_eq!(names(router.fired("action", "start")), None);
    assert_eq!(names(router.fired("printer", "print")), None);
}

#[test]
fn action_processor_fires_triggered() {
    let library = Arc::new(Library::get());
    let processor = ActionProcessor::new(&library).unwrap();
    let fired = processor.handle_trigger();
    assert_eq!(fired.len(), 1);
    assert_eq!(fired[0].as_str(), "triggered");
    let routed = processor.router().fired("action", "trigger").unwrap();
    assert_eq!(routed, fired);
    assert!(processor.router().knows("action"));
    assert!(!processor.router().knows("repeat"));

    // A library without the action node has no use for the processor.
    let without = Arc::new(Library { schema: Schema::builder().node(printer::get()).build() });
    let error = ActionProcessor::new(&without).err().unwrap();
    assert_eq!(error.kind, EngineErrorKind::UnknownNode);
    let wrong = Arc::new(Library {
        schema: Schema::builder()
            .node(Node::builder("action").command("trigger").command("triggered").build())
            .build(),
    });
    assert_eq!(ActionProcessor::new(&wrong).err().unwrap().kind, EngineErrorKind::WrongKind);
}

fn worker() -> Worker<ActionProcessor> {
    let (outbox, inbox) = crossbeam::channel::bounded(CHANNEL_CAPACITY);
    let mut worker = Worker::new(7, outbox, inbox);
    worker.register_processors(&Arc::new(Library::get())).unwrap();
    worker
}

/// The graph with the single edge from the event of `a1` to the command of `b1`.
fn two_nodes() -> Arc<Graph> {
    let schema = graph_engine::engine::schema::get();
    let mut builder = Graph::builder(&schema);
    let a1 = builder.node("action", "a1").unwrap();
    let b1 = builder.node("repeat", "b1").unwrap();
    builder.assign(&b1, "times", Value::Integer(2)).unwrap();
    builder.connect(&a1, "triggered", &b1, "start").unwrap();
    Arc::new(builder.build().unwrap())
}

#[test]
fn triggering_routes_exactly_one_instruction() {
    let graph = two_nodes();
    let worker = worker();
    assert_eq!(worker.id(), 7);

    let trigger = Message::instruction(Context::new(Arc::clone(&graph), graph.get_node("a1")), "trigger");
    let messages = worker.handle_instruction(instruction(&trigger)).unwrap();

    assert_eq!(messages.len(), 1);
    let next = instruction(&messages[0]);
    assert_eq!(next.context.node.key, "b1");
    assert_eq!(next.command_id, "start");
    assert_eq!(next.context.node.get_value("times"), Some(&Value::Integer(2)));
    assert!(Arc::ptr_eq(&next.context.graph, &graph));
}

#[test]
fn instructions_are_dropped_for_a_reason() {
    let graph = two_nodes();
    let worker = worker();
    let on = |key: &str, command: &str| -> Message {
        Message::instruction(Context::new(Arc::clone(&graph), graph.get_node(key)), command)
    };
    let dropped = |message: Message| -> (EngineErrorKind, String) {
        let error = worker.handle_instruction(instruction(&message)).unwrap_err();
        (error.kind, error.message)
    };

    // Not a property of the instance, or not a command of it.
    assert_eq!(
        dropped(on("a1", "nothing")),
        (EngineErrorKind::UnknownCommand, String::from("Command 'nothing' not recognized."))
    );
    assert_eq!(dropped(on("a1", "triggered")).0, EngineErrorKind::UnknownCommand);
    // No processor for the template.
    assert_eq!(
        dropped(on("b1", "start")),
        (EngineErrorKind::UnknownProcessor, String::from("No processor for node 'repeat'"))
    );

    // A worker without processors drops every instruction.
    let (outbox, inbox) = crossbeam::channel::bounded(1);
    let idle: Worker<ActionProcessor> = Worker::new(0, outbox, inbox);
    let error = idle.handle_instruction(instruction(&on("a1", "trigger"))).unwrap_err();
    assert_eq!(error.kind, EngineErrorKind::UnknownProcessor);
    assert_eq!(error.message, "No processor for node 'action'");
}

#[test]
fn events_are_routed_along_their_edges_in_order() {
    let schema = Schema::builder()
        .node(
            Node::builder("source")
                .event("first")
                .event("second")
                .event("unused")
                .output("data", DataType::Integer)
                .build(),
        )
        .node(
            Node::builder("sink")
                .command("go")
                .command("halt")
                .input_with_default("data", DataType::Integer, Value::Integer(0))
                .build(),
        )
        .build();
    let mut builder = Graph::builder(&schema);
    let s = builder.node("source", "s").unwrap();
    let x = builder.node("sink", "x").unwrap();
    let y = builder.node("sink", "y").unwrap();
    builder.connect(&s, "second", &y, "halt").unwrap();
    builder.connect(&s, "first", &y, "go").unwrap();
    builder.connect(&s, "data", &x, "data").unwrap();
    builder.connect(&s, "first", &x, "go").unwrap();
    builder.connect(&s, "second", &x, "halt").unwrap();
    let graph = Arc::new(builder.build().unwrap());

    let route = |events: &[&str]| -> Vec<(String, String)> {
        let events: Vec<PropertyId> = events.iter().map(|e| PropertyId::from(*e)).collect();
        route_events(&graph, graph.get_node("s"), &events)
            .iter()
            .map(|m| (instruction(m).context.node.key.clone(), instruction(m).command_id.clone()))
            .collect()
    };
    let pair = |key: &str, command: &str| (String::from(key), String::from(command));

    assert_eq!(route(&[]), vec![]);
    assert_eq!(route(&["unused"]), vec![]);
    assert_eq!(route(&["nothing"]), vec![]);
    assert_eq!(route(&["first"]), vec![pair("y", "go"), pair("x", "go")]);
    assert_eq!(route(&["second"]), vec![pair("y", "halt"), pair("x", "halt")]);
    assert_eq!(
        route(&["second", "first"]),
        vec![pair("y", "halt"), pair("x", "halt"), pair("y", "go"), pair("x", "go")]
    );
    // An output is read, not fired: its edge leads to an input and starts nothing.
    assert_eq!(route(&["data"]), vec![]);

    // Nothing leads to `go` and `halt` of a sink without edges, so they are
    // where a run would start.
    let mut builder = Graph::builder(&schema);
    let s = builder.node("source", "s").unwrap();
    let x = builder.node("sink", "x").unwrap();
    builder.node("sink", "y").unwrap();
    builder.connect(&s, "first", &x, "go").unwrap();
    let graph = Arc::new(builder.build().unwrap());
    let seeds: Vec<(String, String)> = seed_instructions(&graph)
        .iter()
        .map(|m| (instruction(m).context.node.key.clone(), instruction(m).command_id.clone()))
        .collect();
    assert_eq!(seeds, vec![pair("x", "halt"), pair("y", "go"), pair("y", "halt")]);
}

#[test]
fn printer_reads_the_integer_through_its_edge() {
    let schema = Schema::builder()
        .node(Node::builder("action").command("trigger").event("triggered").build())
        .node(Node::builder("printer").command("print").input("content", DataType::Integer).build())
        .node(
            Node::builder("integer")
                .input("value", DataType::Integer)
                .output("return-value", DataType::Integer)
                .build(),
        )
        .build();
    let mut builder = Graph::builder(&schema);
    let a1 = builder.node("action", "a1").unwrap();
    let p1 = builder.node("printer", "p1").unwrap();
    let n1 = builder.node("integer", "n1").unwrap();
    builder.assign(&n1, "value", Value::Integer(42)).unwrap();
    builder.connect(&a1, "triggered", &p1, "print").unwrap();
    builder.connect(&n1, "return-value", &p1, "content").unwrap();

    let graph = Arc::new(builder.build().unwrap());
    assert_eq!(graph.nodes.len(), 3);
    assert_eq!(graph.edge_map.edges.len(), 2);

    // The one place to start is the command of `a1`.
    let seeds = seed_instructions(&graph);
    assert_eq!(seeds.len(), 1);
    assert_eq!(instruction(&seeds[0]).context.node.key, "a1");
    assert_eq!(instruction(&seeds[0]).command_id, "trigger");

    // Triggering it leads to `print` on `p1`.
    let follow = worker().handle_instruction(instruction(&seeds[0])).unwrap();
    assert_eq!(follow.len(), 1);
    let print = instruction(&follow[0]);
    assert_eq!(print.context.node.key, "p1");
    assert_eq!(print.command_id, "print");

    // What `p1` prints comes over the edge from `n1`, whose output is its input.
    let content = match print.context.input("content") {
        InputSource::Fed(hook) => hook,
        other => panic!("unexpected source: {:?}", other),
    };
    assert_eq!(content.key(), "n1#return-value");
    let producer = Context::new(Arc::clone(&graph), graph.get_node(&content.node.key));
    match producer.input("value") {
        InputSource::Bound(value) => assert_eq!(value, Value::Integer(42)),
        other => panic!("unexpected source: {:?}", other),
    }
    assert!(matches!(producer.input("nothing"), InputSource::Missing));
    assert!(matches!(print.context.input("nothing"), InputSource::Missing));
}

#[test]
fn workers_pass_instructions_through_the_channel() {
    let engine = Engine::new(EngineConfig::new(1).unwrap(), Library::get());
    let mut worker: Worker<ActionProcessor> = engine.worker(1);
    worker.register_processors(&engine.library).unwrap();

    let graph = two_nodes();
    let trigger = Message::instruction(Context::new(Arc::clone(&graph), graph.get_node("a1")), "trigger");
    assert!(engine.submit(trigger).is_ok());
    assert!(engine
        .submit(Message::instruction(
            Context::new(Arc::clone(&graph), graph.get_node("a1")),
            "nothing"
        ))
        .is_ok());

    match worker.step() {
        Step::Handled { instruction, delivery } => {
            assert_eq!(instruction.command_id, "trigger");
            assert_eq!(delivery.sent, 1);
            assert!(delivery.unsent.is_empty());
        }
        other => panic!("unexpected step: {:?}", other),
    }
    match worker.step() {
        Step::Dropped { instruction, error } => {
            assert_eq!(instruction.command_id, "nothing");
            assert_eq!(error.kind, EngineErrorKind::UnknownCommand);
        }
        other => panic!("unexpected step: {:?}", other),
    }
    // What the first step sent is the instruction for `b1`.
    match worker.step() {
        Step::Dropped { instruction, error } => {
            assert_eq!(instruction.context.node.key, "b1");
            assert_eq!(instruction.command_id, "start");
            assert_eq!(error.kind, EngineErrorKind::UnknownProcessor);
        }
        other => panic!("unexpected step: {:?}", other),
    }

    // Once the engine and the other sending sides are gone, the worker is done.
    let (outbox, inbox) = crossbeam::channel::bounded(1);
    let last: Worker<ActionProcessor> = Worker::new(2, outbox.clone(), inbox);
    drop(outbox);
    drop(last);
    let (outbox, inbox) = crossbeam::channel::bounded::<Message>(1);
    let (other_outbox, _other_inbox) = crossbeam::channel::bounded::<Message>(1);
    drop(outbox);
    let closed: Worker<ActionProcessor> = Worker::new(3, other_outbox, inbox);
    assert!(matches!(closed.step(), Step::Closed));
}

fn instructions_on(graph: &Arc<Graph>, key: &str, commands: &[&str]) -> Vec<Message> {
    commands
        .iter()
        .map(|command| Message::instruction(Context::new(Arc::clone(graph), graph.get_node(key)), command))
        .collect()
}

#[test]
fn send_all_sends_in_order() {
    let graph = two_nodes();
    let (outbox, inbox) = crossbeam::channel::bounded::<Message>(CHANNEL_CAPACITY);

    let delivery = send_all(&outbox, instructions_on(&graph, "a1", &["one", "two", "three"]));
    assert_eq!(delivery.sent, 3);
    assert!(delivery.unsent.is_empty());
    for command in ["one", "two", "three"] {
        assert_eq!(instruction(&inbox.recv().unwrap()).command_id, command);
    }
    assert!(inbox.try_recv().is_err());

    let nothing = send_all(&outbox, Vec::new());
    assert_eq!(nothing.sent, 0);
    assert!(nothing.unsent.is_empty());
    assert!(inbox.try_recv().is_err());
}

#[test]
fn send_all_hands_back_what_a_closed_channel_does_not_take() {
    let graph = two_nodes();
    let (outbox, inbox) = crossbeam::channel::bounded::<Message>(CHANNEL_CAPACITY);
    drop(inbox);

    let delivery = send_all(&outbox, instructions_on(&graph, "b1", &["one", "two"]));
    assert_eq!(delivery.sent, 0);
    assert_eq!(delivery.unsent.len(), 2);
    assert_eq!(instruction(&delivery.unsent[0]).command_id, "one");
    assert_eq!(instruction(&delivery.unsent[1]).command_id, "two");
    assert_eq!(instruction(&delivery.unsent[0]).context.node.key, "b1");
    assert!(Arc::ptr_eq(&instruction(&delivery.unsent[1]).context.graph, &graph));
}

#[test]
fn a_step_hands_back_what_follows_when_nobody_listens() {
    let graph = two_nodes();
    let (outbox, gone) = crossbeam::channel::bounded::<Message>(1);
    drop(gone);
    let (feed, inbox) = crossbeam::channel::bounded::<Message>(1);
    let mut worker: Worker<ActionProcessor> = Worker::new(4, outbox, inbox);
    worker.register_processors(&Arc::new(Library::get())).unwrap();

    feed.send(Message::instruction(Context::new(Arc::clone(&graph), graph.get_node("a1")), "trigger"))
        .unwrap();
    match worker.step() {
        Step::Handled { instruction, delivery } => {
            assert_eq!(instruction.context.node.key, "a1");
            assert_eq!(delivery.sent, 0);
            assert_eq!(delivery.unsent.len(), 1);
            assert_eq!(self::instruction(&delivery.unsent[0]).context.node.key, "b1");
            assert_eq!(self::instruction(&delivery.unsent[0]).command_id, "start");
        }
        other => panic!("unexpected step: {:?}", other),
    }
    drop(feed);
    assert!(matches!(worker.step(), Step::Closed));
}

#[test]
fn execute_seeds_every_entry_point() {
    let schema = graph_engine::engine::schema::get();
    let mut builder = Graph::builder(&schema);
    builder.node("action", "first").unwrap();
    builder.node("printer", "idle").unwrap();
    let wired = builder.node("printer", "wired").unwrap();
    let second = builder.node("action", "second").unwrap();
    let number = builder.node("integer", "number").unwrap();
    builder.assign(&number, "value", Value::Integer(1)).unwrap();
    builder.connect(&second, "triggered", &wired, "print").unwrap();
    builder.connect(&number, "return-value", &wired, "content").unwrap();
    let idle = graph_engine::graph::graph::placed_node::PlacedNode::new(&schema.nodes[2], "idle");
    builder.assign(&idle, "content", Value::Integer(0)).unwrap();
    let graph = builder.build().unwrap();

    let engine = Engine::new(EngineConfig::new(1).unwrap(), Library::get());
    let worker: Worker<ActionProcessor> = engine.worker(0);
    let delivery = engine.execute(graph);
    assert_eq!(delivery.sent, 3);
    assert!(delivery.unsent.is_empty());

    // The seeds come out in the order of the instances; without processors
    // the worker drops each of them and names it.
    for (key, command) in [("first", "trigger"), ("idle", "print"), ("second", "trigger")] {
        match worker.step() {
            Step::Dropped { instruction, error } => {
                assert_eq!(instruction.context.node.key, key);
                assert_eq!(instruction.command_id, command);
                assert_eq!(error.kind, EngineErrorKind::UnknownProcessor);
            }
            other => panic!("unexpected step: {:?}", other),
        }
    }
}

/// A processor that goes by its routes alone.
struct Table {
    router: Router,
}

impl Processor for Table {
    fn router(&self) -> &Router {
        &self.router
    }

    fn handle(&self, context: &Context, command_id: &str) -> Result<Vec<PropertyId>, EngineError> {
        self.router.handle(context, command_id)
    }
}

/// A template whose command reads two inputs, one of them with a default
/// value, and fires one event.
fn reader_schema() -> Schema {
    Schema::builder()
        .node(
            Node::builder("reader")
                .command("read")
                .input_with_default("preset", DataType::Integer, Value::Integer(1))
                .input("fed", DataType::Integer)
                .event("done")
                .output("out", DataType::Integer)
                .build(),
        )
        .build()
}

fn reader_table() -> Table {
    let ids = |ids: &[&str]| -> Vec<PropertyId> { ids.iter().map(|e| PropertyId::from(*e)).collect() };
    let mut router = Router::new();
    router.route("reader", "read", ids(&["preset", "fed"]), ids(&["done"]));
    Table { router }
}

#[test]
fn a_command_that_lacks_an_input_is_skipped() {
    let schema = reader_schema();
    let mut builder = Graph::builder(&schema);
    let first = builder.node("reader", "first").unwrap();
    let second = builder.node("reader", "second").unwrap();
    builder.assign(&first, "fed", Value::Integer(7)).unwrap();
    builder.connect(&first, "out", &second, "fed").unwrap();
    builder.connect(&first, "done", &second, "read").unwrap();
    let graph = Arc::new(builder.build().unwrap());

    let (outbox, inbox) = crossbeam::channel::bounded(CHANNEL_CAPACITY);
    let mut worker: Worker<Table> = Worker::new(0, outbox, inbox);
    worker.register(reader_table());

    // Every input of `first` has a value: the command is carried out, and its
    // event leads to the command of `second`.
    let read = Message::instruction(Context::new(Arc::clone(&graph), graph.get_node("first")), "read");
    let follow = worker.handle_instruction(instruction(&read)).unwrap();
    assert_eq!(follow.len(), 1);
    assert_eq!(instruction(&follow[0]).context.node.key, "second");
    assert_eq!(instruction(&follow[0]).command_id, "read");
    // The input of `second` is fed by an edge, so that command is carried out too.
    assert!(worker.handle_instruction(instruction(&follow[0])).unwrap().is_empty());

    // An instance whose input has neither a value nor an edge: the command is
    // skipped, and nothing follows from it.
    let mut bare = PlacedNode::new(&schema.nodes[0], "first");
    assert_eq!(bare.get_value("fed"), None);
    let skipped = Message::instruction(Context::new(Arc::clone(&graph), &bare), "read");
    let reason = worker.handle_instruction(instruction(&skipped)).unwrap_err();
    assert_eq!(reason.kind, EngineErrorKind::MissingInput);
    assert_eq!(reason.message, "Input 'first#fed' has no value.");

    // With the value bound, the same instruction is carried out.
    bare.set_value("fed", Value::Integer(3));
    let carried = Message::instruction(Context::new(Arc::clone(&graph), &bare), "read");
    assert_eq!(worker.handle_instruction(instruction(&carried)).unwrap().len(), 1);

    // The first input in the order of the route is the one that is named.
    let mut empty = PlacedNode::new(&schema.nodes[0], "other");
    empty.values.clear();
    let context = Context::new(Arc::clone(&graph), &empty);
    let reason = reader_table().router.handle(&context, "read").unwrap_err();
    assert_eq!(reason.kind, EngineErrorKind::MissingInput);
    assert_eq!(reason.message, "Input 'other#preset' has no value.");
    let unknown = reader_table().router.handle(&context, "write").unwrap_err();
    assert_eq!(unknown.kind, EngineErrorKind::UnknownCommand);
}

#[test]
fn a_skipped_instruction_sends_nothing_and_the_worker_goes_on() {
    let schema = reader_schema();
    let mut builder = Graph::builder(&schema);
    let first = builder.node("reader", "first").unwrap();
    let second = builder.node("reader", "second").unwrap();
    builder.assign(&first, "fed", Value::Integer(7)).unwrap();
    builder.assign(&second, "fed", Value::Integer(8)).unwrap();
    builder.connect(&first, "done", &second, "read").unwrap();
    let graph = Arc::new(builder.build().unwrap());

    let (outbox, inbox) = crossbeam::channel::bounded(CHANNEL_CAPACITY);
    let feed = outbox.clone();
    let mut worker: Worker<Table> = Worker::new(0, outbox, inbox);
    worker.register(reader_table());

    let bare = PlacedNode::new(&schema.nodes[0], "first");
    feed.send(Message::instruction(Context::new(Arc::clone(&graph), &bare), "read")).unwrap();
    feed.send(Message::instruction(Context::new(Arc::clone(&graph), graph.get_node("first")), "read"))
        .unwrap();

    let skipped = worker.step();
    assert!(!skipped.ends_worker());
    match skipped {
        Step::Dropped { instruction, error } => {
            assert_eq!(instruction.context.node.key, "first");
            assert_eq!(error.kind, EngineErrorKind::MissingInput);
        }
        other => panic!("unexpected step: {:?}", other),
    }
    // Nothing was sent for it: what comes next is the second instruction.
    let carried = worker.step();
    assert!(!carried.ends_worker());
    match carried {
        Step::Handled { delivery, .. } => {
            assert_eq!(delivery.sent, 1);
            assert!(delivery.unsent.is_empty());
        }
        other => panic!("unexpected step: {:?}", other),
    }
}

#[test]
fn a_step_ends_the_worker_where_the_channel_is_closed() {
    let graph = two_nodes();
    let message = |command: &str| -> Message {
        Message::instruction(Context::new(Arc::clone(&graph), graph.get_node("a1")), command)
    };
    let taken = |command: &str| -> Instruction {
        match message(command) {
            Message::Instruction(instruction) => instruction,
        }
    };

    assert!(Step::Closed.ends_worker());
    assert!(!Step::Dropped { instruction: taken("x"), error: EngineError::new("dropped") }.ends_worker());
    assert!(!Step::Handled {
        instruction: taken("x"),
        delivery: Delivery { sent: 0, unsent: vec![] }
    }
    .ends_worker());
    assert!(!Step::Handled {
        instruction: taken("x"),
        delivery: Delivery { sent: 2, unsent: vec![] }
    }
    .ends_worker());
    assert!(Step::Handled {
        instruction: taken("x"),
        delivery: Delivery { sent: 1, unsent: vec![message("y")] }
    }
    .ends_worker());
}

#[test]
fn the_pool_has_as_many_workers_as_configured() {
    let engine = Engine::new(EngineConfig::new(3).unwrap(), Library::get());
    let workers: Vec<Worker<ActionProcessor>> = engine.workers();
    assert_eq!(workers.len(), 3);
    for (i, worker) in workers.iter().enumerate() {
        assert_eq!(worker.id(), i as u64);
    }

    // The workers share the channel of the engine, and start out without processors.
    let graph = two_nodes();
    let context = Context::new(Arc::clone(&graph), graph.get_node("a1"));
    assert!(engine.submit(Message::instruction(context, "trigger")).is_ok());
    match workers[2].step() {
        Step::Dropped { error, .. } => assert_eq!(error.kind, EngineErrorKind::UnknownProcessor),
        other => panic!("unexpected step: {:?}", other),
    }

    let single = Engine::new(EngineConfig::new(1).unwrap(), Library::get());
    assert_eq!(single.workers::<ActionProcessor>().len(), 1);
}

#[test]
fn sending_goes_on_message_by_message() {
    let graph = two_nodes();
    let commands = |messages: &[Message]| -> Vec<String> {
        messages.iter().map(|m| instruction(m).command_id.clone()).collect()
    };

    assert!(next_waiting(Vec::new()).is_none());
    let (first, rest) = next_waiting(instructions_on(&graph, "a1", &["one", "two", "three"])).unwrap();
    assert_eq!(instruction(&first).command_id, "one");
    assert_eq!(commands(&rest), vec!["two", "three"]);
    let (only, rest) = next_waiting(instructions_on(&graph, "a1", &["one"])).unwrap();
    assert_eq!(instruction(&only).command_id, "one");
    assert!(rest.is_empty());

    // A message that went in is one more sent, and the rest waits on.
    let (sent, rest) = after_send(4, instructions_on(&graph, "a1", &["two", "three"]), Ok(())).unwrap();
    assert_eq!(sent, 5);
    assert_eq!(commands(&rest), vec!["two", "three"]);

    // A message that came back ends the sending: it is unsent, with the rest behind it.
    let back = instructions_on(&graph, "a1", &["one"]).remove(0);
    let delivery = after_send(4, instructions_on(&graph, "a1", &["two", "three"]), Err(back)).unwrap_err();
    assert_eq!(delivery.sent, 4);
    assert_eq!(commands(&delivery.unsent), vec!["one", "two", "three"]);
    let back = instructions_on(&graph, "a1", &["one"]).remove(0);
    let delivery = after_send(0, Vec::new(), Err(back)).unwrap_err();
    assert_eq!(delivery.sent, 0);
    assert_eq!(commands(&delivery.unsent), vec!["one"]);
}

#[test]
fn a_turn_follows_on_what_was_received() {
    let graph = two_nodes();
    let (outbox, inbox) = crossbeam::channel::bounded::<Message>(CHANNEL_CAPACITY);
    let listener = inbox.clone();
    let mut worker: Worker<ActionProcessor> = Worker::new(5, outbox, inbox);
    worker.register_processors(&Arc::new(Library::get())).unwrap();
    let on = |key: &str, command: &str| -> Message {
        Message::instruction(Context::new(Arc::clone(&graph), graph.get_node(key)), command)
    };

    // Nothing received: the channel is closed, and nothing is sent.
    let closed = worker.turn(None);
    assert!(matches!(closed, Step::Closed));
    assert!(closed.ends_worker());
    assert!(listener.try_recv().is_err());

    // An instruction that is carried out is reported, and what follows is sent.
    match worker.turn(Some(on("a1", "trigger"))) {
        Step::Handled { instruction, delivery } => {
            assert_eq!(instruction.context.node.key, "a1");
            assert_eq!(instruction.command_id, "trigger");
            assert!(Arc::ptr_eq(&instruction.context.graph, &graph));
            assert_eq!(delivery.sent, 1);
            assert!(delivery.unsent.is_empty());
        }
        other => panic!("unexpected step: {:?}", other),
    }
    let sent = listener.try_recv().unwrap();
    assert_eq!(instruction(&sent).context.node.key, "b1");
    assert_eq!(instruction(&sent).command_id, "start");
    assert!(listener.try_recv().is_err());

    // An instruction that is dropped is reported too, and nothing is sent for it.
    match worker.turn(Some(on("b1", "start"))) {
        Step::Dropped { instruction, error } => {
            assert_eq!(instruction.context.node.key, "b1");
            assert_eq!(instruction.command_id, "start");
            assert_eq!(error.kind, EngineErrorKind::UnknownProcessor);
        }
        other => panic!("unexpected step: {:?}", other),
    }
    match worker.turn(Some(on("a1", "nothing"))) {
        Step::Dropped { instruction, error } => {
            assert_eq!(instruction.command_id, "nothing");
            assert_eq!(error.kind, EngineErrorKind::UnknownCommand);
        }
        other => panic!("unexpected step: {:?}", other),
    }
    assert!(listener.try_recv().is_err());
}
