//! The processor of the `action` node.

use std::sync::Arc;

use vstd::prelude::*;

use crate::engine::error::{EngineError, EngineErrorView};
use crate::engine::library::basic::action;
use crate::engine::library::{
    lookup_error, lookup_report, CommandReference, EventReference, Library, PropertyKind,
};
use crate::engine::message::{Context, ContextView};
use crate::engine::processor::{Processor, RouteView, Router, RouterView};
use crate::graph::schema::property::PropertyId;
use crate::graph::schema::SchemaView;

verus! {

/// Carries out the commands of the `action` node: `trigger` fires `triggered`.
pub struct ActionProcessor {
    router: Router,
    trigger_command: CommandReference,
    triggered_event: EventReference,
}

/// The routes of the processor of the `action` node.
pub open spec fn action_routes() -> RouterView {
    RouterView {
        routes: seq![
            RouteView {
                template_id: action::ID@,
                command_id: action::COMMAND_TRIGGER@,
                inputs: Seq::empty(),
                events: seq![action::EVENT_TRIGGERED@],
            },
        ],
    }
}

/// The error of the first of the two references of the processor that the
/// library does not resolve: the command `trigger` of the `action` node is
/// looked up first, its event `triggered` second.
pub open spec fn missing_reference(library: SchemaView) -> Option<EngineErrorView> {
    match lookup_error(library, action::ID@, action::COMMAND_TRIGGER@, PropertyKind::Command) {
        Some(kind) => Some(lookup_report(kind, action::ID@, action::COMMAND_TRIGGER@)),
        None => match lookup_error(
            library,
            action::ID@,
            action::EVENT_TRIGGERED@,
            PropertyKind::Event,
        ) {
            Some(kind) => Some(lookup_report(kind, action::ID@, action::EVENT_TRIGGERED@)),
            None => None,
        },
    }
}

impl ActionProcessor {
    #[verifier::type_invariant]
    spec fn inv(self) -> bool {
        &&& self.router@ == action_routes()
        &&& self.triggered_event.property.id@ == action::EVENT_TRIGGERED@
    }

    /// Constructs the processor, if the library declares the `action` node with
    /// its command and its event.
    pub fn new(lib: &Arc<Library>) -> (processor: Result<ActionProcessor, EngineError>)
        ensures
            match processor {
                Ok(processor) => missing_reference(lib@) is None && processor.routes()
                    == action_routes(),
                Err(error) => missing_reference(lib@) == Some(error@),
            },
    {
        let trigger_command = lib.get_command(action::ID, action::COMMAND_TRIGGER)?;
        let triggered_event = lib.get_event(action::ID, action::EVENT_TRIGGERED)?;
        proof {
            lib@.node(action::ID@).lemma_property(action::EVENT_TRIGGERED@);
        }

        let mut events: Vec<PropertyId> = Vec::new();
        events.push(triggered_event.property.id.clone());
        let mut router = Router::new();
        let inputs: Vec<PropertyId> = Vec::new();
        router.route(action::ID, action::COMMAND_TRIGGER, inputs, events);
        proof {
            assert(events@.map_values(|e: PropertyId| e@) =~= seq![action::EVENT_TRIGGERED@]);
            assert(inputs@.map_values(|e: PropertyId| e@) =~= Seq::<Seq<char>>::empty());
            assert(router@.routes =~= action_routes().routes);
        }
        Ok(ActionProcessor { router, trigger_command, triggered_event })
    }

    /// Carries out `trigger`: returns the events that fire, which is `triggered` alone.
    pub fn handle_trigger(&self) -> (events: Vec<PropertyId>)
        ensures
            events@.map_values(|e: PropertyId| e@) == seq![action::EVENT_TRIGGERED@],
    {
        proof {
            use_type_invariant(self);
        }
        let mut events: Vec<PropertyId> = Vec::new();
        events.push(self.triggered_event.property.id.clone());
        proof {
            assert(events@.map_values(|e: PropertyId| e@) =~= seq![action::EVENT_TRIGGERED@]);
        }
        events
    }
}

impl Processor for ActionProcessor {
    open spec fn specified(&self) -> bool {
        true
    }

    closed spec fn routes(&self) -> RouterView {
        self.router@
    }

    /// The action node goes by its routes alone.
    open spec fn outcome(&self, context: ContextView, command_id: Seq<char>) -> Result<
        Seq<Seq<char>>,
        EngineErrorView,
    > {
        self.routes().outcome(context, command_id)
    }

    fn router(&self) -> (router: &Router) {
        &self.router
    }

    fn handle(&self, context: &Context, command_id: &str) -> (fired: Result<
        Vec<PropertyId>,
        EngineError,
    >) {
        self.router.handle(context, command_id)
    }
}

} // verus!
