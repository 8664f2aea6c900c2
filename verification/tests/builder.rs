use graph_engine::graph::error::GraphErrorKind;
use graph_engine::graph::graph::Graph;
use graph_engine::graph::schema::node::Node;
use graph_engine::graph::schema::Schema;
use graph_engine::graph::value::{DataType, Value};

/// One template with a property of each kind, and inputs and outputs of two types.
fn schema() -> Schema {
    Schema::builder()
        .node(
            Node::builder("unit")
                .event("event")
                .command("command")
                .input("int-in", DataType::Integer)
                .output("int-out", DataType::Integer)
                .input("text-in", DataType::String)
                .output("text-out", DataType::String)
                .input_with_default("preset", DataType::Boolean, Value::Boolean(true))
                .build(),
        )
        .node(Node::builder("bare").event("event").command("command").build())
        .build()
}

#[test]
fn node_places_instances_and_refuses_used_keys() {
    let schema = schema();
    let mut builder = Graph::builder(&schema);

    let u1 = builder.node("unit", "u1").unwrap();
    assert_eq!(u1.key, "u1");
    assert_eq!(u1.node.id.as_str(), "unit");
    assert_eq!(u1.values.len(), 1);
    assert_eq!(u1.get_value("preset"), Some(&Value::Boolean(true)));

    let again = builder.node("unit", "u1").unwrap_err();
    assert_eq!(again.kind, GraphErrorKind::DuplicateKey);
    assert_eq!(again.instance_key, "u1");
    assert_eq!(again.property_id, "");
    assert_eq!(again.message, "Duplicate node key 'u1'");

    // The key is looked at first: a used key wins over an unknown template.
    assert_eq!(builder.node("nothing", "u1").unwrap_err().kind, GraphErrorKind::DuplicateKey);

    let unknown = builder.node("nothing", "n1").unwrap_err();
    assert_eq!(unknown.kind, GraphErrorKind::UnknownTemplate);
    assert_eq!(unknown.instance_key, "n1");
    assert_eq!(unknown.message, "Node with id 'nothing' not found.");

    // A refused placement leaves the key free.
    assert!(builder.node("bare", "n1").is_ok());
}

#[test]
fn assign_checks_property_and_type() {
    let schema = schema();
    let mut builder = Graph::builder(&schema);
    let u1 = builder.node("unit", "u1").unwrap();

    let unknown = builder.assign(&u1, "nothing", Value::Integer(1)).unwrap_err();
    assert_eq!(unknown.kind, GraphErrorKind::UnknownProperty);
    assert_eq!(unknown.instance_key, "u1");
    assert_eq!(unknown.property_id, "nothing");
    assert_eq!(unknown.message, "Node property 'u1#nothing' not found.");

    assert_eq!(
        builder.assign(&u1, "event", Value::Integer(1)).unwrap_err().kind,
        GraphErrorKind::NotADataProperty
    );
    assert_eq!(
        builder.assign(&u1, "command", Value::Integer(1)).unwrap_err().kind,
        GraphErrorKind::NotADataProperty
    );
    let mismatch = builder.assign(&u1, "int-in", Value::from("one")).unwrap_err();
    assert_eq!(mismatch.kind, GraphErrorKind::TypeMismatch);
    assert_eq!(mismatch.message, "Incompatible types.");
    assert_eq!(
        builder.assign(&u1, "text-in", Value::Integer(1)).unwrap_err().kind,
        GraphErrorKind::TypeMismatch
    );

    // An instance that this builder does not hold resolves no property.
    let other_schema = schema_of_other();
    let mut other = Graph::builder(&other_schema);
    let stranger = other.node("unit", "elsewhere").unwrap();
    assert_eq!(
        builder.assign(&stranger, "int-in", Value::Integer(1)).unwrap_err().kind,
        GraphErrorKind::UnknownProperty
    );

    builder.assign(&u1, "int-in", Value::Integer(1)).unwrap();
    builder.assign(&u1, "text-in", Value::from("one")).unwrap();
    builder.assign(&u1, "int-in", Value::Integer(2)).unwrap();
    builder.assign(&u1, "preset", Value::Boolean(false)).unwrap();
    builder.assign(&u1, "int-out", Value::Integer(9)).unwrap();

    let graph = builder.build().unwrap();
    let u1 = graph.get_node("u1");
    // Assignments add up on the instance that the builder holds, whichever
    // handle they were made through; a second one replaces the first.
    assert_eq!(u1.get_value("int-in"), Some(&Value::Integer(2)));
    assert_eq!(u1.get_value("text-in"), Some(&Value::from("one")));
    assert_eq!(u1.get_value("preset"), Some(&Value::Boolean(false)));
    assert_eq!(u1.get_value("int-out"), Some(&Value::Integer(9)));
    assert_eq!(u1.values.len(), 4);
    assert_eq!(u1.values[0].property_id.as_str(), "preset");
    assert_eq!(u1.values[1].property_id.as_str(), "int-in");
}

fn schema_of_other() -> Schema {
    schema()
}

const KINDS: [&str; 4] = ["event", "command", "int-in", "int-out"];

fn expected(source: &str, target: &str) -> Option<GraphErrorKind> {
    let source_produces = source == "event" || source == "int-out";
    let target_requires = target == "command" || target == "int-in";
    if !source_produces {
        Some(GraphErrorKind::InvalidSourceRole)
    } else if !target_requires {
        Some(GraphErrorKind::InvalidTargetRole)
    } else if source == "event" && target != "command" {
        Some(GraphErrorKind::EventRequiresCommand)
    } else if target == "command" && source != "event" {
        Some(GraphErrorKind::CommandRequiresEvent)
    } else {
        None
    }
}

#[test]
fn connect_succeeds_exactly_on_the_legal_wirings() {
    let schema = schema();
    for source in KINDS {
        for target in KINDS {
            let mut builder = Graph::builder(&schema);
            let a = builder.node("unit", "a").unwrap();
            let b = builder.node("unit", "b").unwrap();
            let result = builder.connect(&a, source, &b, target);
            assert_eq!(result.as_ref().err().map(|e| e.kind), expected(source, target), "{source} -> {target}");
            let legal = (source == "event" && target == "command")
                || (source == "int-out" && target == "int-in");
            assert_eq!(result.is_ok(), legal, "{source} -> {target}");
        }
    }
}

#[test]
fn connect_reports_the_hook_at_fault() {
    let schema = schema();
    let mut builder = Graph::builder(&schema);
    let a = builder.node("unit", "a").unwrap();
    let b = builder.node("unit", "b").unwrap();

    let source_missing = builder.connect(&a, "nothing", &b, "nowhere").unwrap_err();
    assert_eq!(source_missing.kind, GraphErrorKind::UnknownProperty);
    assert_eq!((source_missing.instance_key.as_str(), source_missing.property_id.as_str()), ("a", "nothing"));
    assert_eq!(source_missing.message, "Node property 'a#nothing' not found.");

    let target_missing = builder.connect(&a, "event", &b, "nowhere").unwrap_err();
    assert_eq!(target_missing.kind, GraphErrorKind::UnknownProperty);
    assert_eq!((target_missing.instance_key.as_str(), target_missing.property_id.as_str()), ("b", "nowhere"));

    // Unknown properties are found before the instances are compared.
    assert_eq!(builder.connect(&a, "nothing", &a, "command").unwrap_err().kind, GraphErrorKind::UnknownProperty);
    let to_self = builder.connect(&a, "command", &a, "event").unwrap_err();
    assert_eq!(to_self.kind, GraphErrorKind::SelfConnection);
    assert_eq!(to_self.message, "Cannot connect to self.");

    let bad_source = builder.connect(&a, "command", &b, "event").unwrap_err();
    assert_eq!(bad_source.kind, GraphErrorKind::InvalidSourceRole);
    assert_eq!((bad_source.instance_key.as_str(), bad_source.property_id.as_str()), ("a", "command"));

    let bad_target = builder.connect(&a, "event", &b, "event").unwrap_err();
    assert_eq!(bad_target.kind, GraphErrorKind::InvalidTargetRole);
    assert_eq!((bad_target.instance_key.as_str(), bad_target.property_id.as_str()), ("b", "event"));

    let event_to_input = builder.connect(&a, "event", &b, "int-in").unwrap_err();
    assert_eq!(event_to_input.kind, GraphErrorKind::EventRequiresCommand);
    assert_eq!((event_to_input.instance_key.as_str(), event_to_input.property_id.as_str()), ("b", "int-in"));

    let output_to_command = builder.connect(&a, "int-out", &b, "command").unwrap_err();
    assert_eq!(output_to_command.kind, GraphErrorKind::CommandRequiresEvent);
    assert_eq!((output_to_command.instance_key.as_str(), output_to_command.property_id.as_str()), ("a", "int-out"));
}

#[test]
fn connect_twice_is_a_duplicate_edge() {
    let schema = schema();
    let mut builder = Graph::builder(&schema);
    let a = builder.node("unit", "a").unwrap();
    let b = builder.node("unit", "b").unwrap();
    builder.assign(&a, "int-in", Value::Integer(1)).unwrap();
    builder.assign(&a, "text-in", Value::from("")).unwrap();
    builder.assign(&b, "text-in", Value::from("")).unwrap();

    builder.connect(&a, "int-out", &b, "int-in").unwrap();
    let again = builder.connect(&a, "int-out", &b, "int-in").unwrap_err();
    assert_eq!(again.kind, GraphErrorKind::DuplicateEdge);
    assert_eq!(again.message, "Edge 'a#int-out>b#int-in' already exists.");
    // The other direction is another edge.
    builder.connect(&b, "int-out", &a, "int-in").unwrap();

    let graph = builder.build().unwrap();
    assert_eq!(graph.edge_map.edges.len(), 2);
    let a = graph.get_node("a");
    let b = graph.get_node("b");
    assert!(graph.edge_map.contains_edge_between(a, a.get_property("int-out"), b, b.get_property("int-in")));
    assert!(graph.edge_map.contains_edge(&graph.edge_map.edges[0]));
    assert!(!graph.edge_map.contains_edge_between(a, a.get_property("event"), b, b.get_property("command")));
}

#[test]
fn type_mismatch_leaves_the_edges_unchanged() {
    let schema = schema();
    let mut builder = Graph::builder(&schema);
    let a = builder.node("unit", "a").unwrap();
    let b = builder.node("unit", "b").unwrap();
    for instance in [&a, &b] {
        builder.assign(instance, "int-in", Value::Integer(0)).unwrap();
        builder.assign(instance, "text-in", Value::from("")).unwrap();
    }
    builder.connect(&a, "event", &b, "command").unwrap();

    let mismatch = builder.connect(&a, "int-out", &b, "text-in").unwrap_err();
    assert_eq!(mismatch.kind, GraphErrorKind::TypeMismatch);
    assert_eq!(builder.connect(&a, "text-out", &b, "int-in").unwrap_err().kind, GraphErrorKind::TypeMismatch);

    let graph = builder.build().unwrap();
    assert_eq!(graph.edge_map.edges.len(), 1);
    assert_eq!(graph.edge_map.edges[0].key(), "a#event>b#command");
}

#[test]
fn build_names_the_first_unsatisfied_input() {
    let schema = schema();

    let mut builder = Graph::builder(&schema);
    builder.node("bare", "x").unwrap();
    let a = builder.node("unit", "a").unwrap();
    let b = builder.node("unit", "b").unwrap();
    builder.assign(&a, "int-in", Value::Integer(1)).unwrap();
    builder.connect(&a, "text-out", &b, "text-in").unwrap();
    let missing = builder.build().unwrap_err();
    assert_eq!(missing.kind, GraphErrorKind::MissingValue);
    assert_eq!(missing.instance_key, "a");
    assert_eq!(missing.property_id, "text-in");
    assert_eq!(missing.message, "No value assigned for 'a#text-in'");

    // With that input assigned, the next one in line is named: the integer
    // input of `b`, whose text input is fed by an edge.
    let mut builder = Graph::builder(&schema);
    builder.node("bare", "x").unwrap();
    let a = builder.node("unit", "a").unwrap();
    let b = builder.node("unit", "b").unwrap();
    builder.assign(&a, "int-in", Value::Integer(1)).unwrap();
    builder.assign(&a, "text-in", Value::from("t")).unwrap();
    builder.connect(&a, "text-out", &b, "text-in").unwrap();
    let missing = builder.build().unwrap_err();
    assert_eq!((missing.instance_key.as_str(), missing.property_id.as_str()), ("b", "int-in"));

    // An input is satisfied by a default value, by an assignment, or by an edge.
    let mut builder = Graph::builder(&schema);
    let a = builder.node("unit", "a").unwrap();
    let b = builder.node("unit", "b").unwrap();
    builder.assign(&a, "int-in", Value::Integer(1)).unwrap();
    builder.assign(&a, "text-in", Value::from("t")).unwrap();
    builder.connect(&a, "text-out", &b, "text-in").unwrap();
    builder.connect(&a, "int-out", &b, "int-in").unwrap();
    let graph = builder.build().unwrap();
    assert_eq!(graph.nodes.len(), 2);
    assert_eq!(graph.edge_map.edges.len(), 2);
}

#[test]
fn counts_follow_the_successful_calls() {
    let schema = schema();
    let mut builder = Graph::builder(&schema);
    let mut placed = 0;
    let mut connected = 0;

    for (id, key) in [("bare", "a"), ("bare", "b"), ("nothing", "c"), ("bare", "a"), ("bare", "c")] {
        if builder.node(id, key).is_ok() {
            placed += 1;
        }
    }
    let a = graph_engine::graph::graph::placed_node::PlacedNode::new(&schema.nodes[1], "a");
    let b = graph_engine::graph::graph::placed_node::PlacedNode::new(&schema.nodes[1], "b");
    let c = graph_engine::graph::graph::placed_node::PlacedNode::new(&schema.nodes[1], "c");
    for (source, target) in [(&a, &b), (&a, &b), (&b, &c), (&c, &c), (&c, &a)] {
        if builder.connect(source, "event", target, "command").is_ok() {
            connected += 1;
        }
    }
    assert!(builder.assign(&a, "event", Value::Integer(1)).is_err());

    let graph = builder.build().unwrap();
    assert_eq!(placed, 3);
    assert_eq!(connected, 3);
    assert_eq!(graph.nodes.len(), placed);
    assert_eq!(graph.edge_map.edges.len(), connected);
    assert!(graph.has_node("c"));
    assert!(!graph.has_node("d"));
    assert_eq!(graph.find_node("b"), Some(1));
    assert_eq!(graph.clone().nodes.len(), 3);
}
