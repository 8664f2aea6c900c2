//! Processors hold the behaviour of node templates: what carrying out a command
//! of an instance comes to, and which events fire when it has been carried out.

use vstd::prelude::*;

use crate::engine::error::{EngineError, EngineErrorKind, EngineErrorView};
use crate::engine::message::{Context, ContextView, InputSource};
use crate::graph::graph::edge::{hook_key, hook_key_of};
use crate::graph::schema::node::NodeId;
use crate::graph::schema::property::PropertyId;

pub mod action_processor;

verus! {

/// What a command of a node template reads and fires.
#[derive(Debug)]
pub struct Route {
    /// Id of the node template.
    pub template_id: NodeId,
    /// Id of the command.
    pub command_id: PropertyId,
    /// Ids of the inputs that the command reads.
    pub inputs: Vec<PropertyId>,
    /// Ids of the events that fire when the command has been carried out.
    pub events: Vec<PropertyId>,
}

/// Mathematical model of a [`Route`].
pub struct RouteView {
    pub template_id: Seq<char>,
    pub command_id: Seq<char>,
    pub inputs: Seq<Seq<char>>,
    pub events: Seq<Seq<char>>,
}

impl View for Route {
    type V = RouteView;

    open spec fn view(&self) -> RouteView {
        RouteView {
            template_id: self.template_id@,
            command_id: self.command_id@,
            inputs: self.inputs@.map_values(|e: PropertyId| e@),
            events: self.events@.map_values(|e: PropertyId| e@),
        }
    }
}

/// Tells for the commands of node templates what they read and which events
/// they fire.
#[derive(Debug)]
pub struct Router {
    routes: Vec<Route>,
}

/// Mathematical model of a [`Router`]: its routes in the order of their registration.
pub struct RouterView {
    pub routes: Seq<RouteView>,
}

/// The first of `routes` for the command `command_id` of the template `template_id`.
pub open spec fn route_among(
    routes: Seq<RouteView>,
    template_id: Seq<char>,
    command_id: Seq<char>,
) -> Option<RouteView>
    decreases routes.len(),
{
    if routes.len() == 0 {
        None
    } else if routes.first().template_id == template_id && routes.first().command_id
        == command_id {
        Some(routes.first())
    } else {
        route_among(routes.drop_first(), template_id, command_id)
    }
}

/// The first of `inputs` for which the instance of `context` has no value: no
/// edge leads to it and no value is bound to it.
pub open spec fn missing_among(context: ContextView, inputs: Seq<Seq<char>>) -> Option<Seq<char>>
    decreases inputs.len(),
{
    if inputs.len() == 0 {
        None
    } else if context.input(inputs.first()) is Missing {
        Some(inputs.first())
    } else {
        missing_among(context, inputs.drop_first())
    }
}

impl RouterView {
    /// Whether the router has a route for some command of the template.
    pub open spec fn knows(self, template_id: Seq<char>) -> bool {
        exists|i: int|
            0 <= i < self.routes.len() && (#[trigger] self.routes[i]).template_id == template_id
    }

    /// The route of the command `command_id` of the template `template_id`: the
    /// one that was registered first for it.
    pub open spec fn route(self, template_id: Seq<char>, command_id: Seq<char>) -> Option<
        RouteView,
    > {
        route_among(self.routes, template_id, command_id)
    }

    /// The events that the command `command_id` of the template `template_id` fires.
    pub open spec fn events(self, template_id: Seq<char>, command_id: Seq<char>) -> Option<
        Seq<Seq<char>>,
    > {
        match self.route(template_id, command_id) {
            Some(route) => Some(route.events),
            None => None,
        }
    }

    /// What carrying out the command `command_id` on the instance of `context`
    /// comes to, going by the routes: a command without a route is not
    /// recognized; a command that reads an input without a value is skipped,
    /// and the error names the first such input; any other command fires the
    /// events of its route.
    pub open spec fn outcome(self, context: ContextView, command_id: Seq<char>) -> Result<
        Seq<Seq<char>>,
        EngineErrorView,
    > {
        match self.route(context.node.node.id, command_id) {
            None => Err(EngineErrorView::report(EngineErrorKind::UnknownCommand, command_id)),
            Some(route) => match missing_among(context, route.inputs) {
                Some(input_id) => Err(
                    EngineErrorView::report(
                        EngineErrorKind::MissingInput,
                        hook_key(context.node.key, input_id),
                    ),
                ),
                None => Ok(route.events),
            },
        }
    }

    /// The router with one more route, registered last.
    pub open spec fn with_route(self, route: RouteView) -> RouterView {
        RouterView { routes: self.routes.push(route) }
    }
}

impl View for Router {
    type V = RouterView;

    closed spec fn view(&self) -> RouterView {
        RouterView { routes: self.routes@.map_values(|r: Route| r@) }
    }
}

/// Copies a list of property ids.
fn copy_ids(ids: &Vec<PropertyId>) -> (copy: Vec<PropertyId>)
    ensures
        copy@.map_values(|e: PropertyId| e@) == ids@.map_values(|e: PropertyId| e@),
{
    let mut copy: Vec<PropertyId> = Vec::new();
    let mut k: usize = 0;
    while k < ids.len()
        invariant
            k <= ids.len(),
            copy@.len() == k,
            forall|j: int| 0 <= j < k ==> copy@[j]@ == ids@[j]@,
        decreases ids.len() - k,
    {
        copy.push(ids[k].clone());
        k += 1;
    }
    proof {
        assert(copy@.map_values(|e: PropertyId| e@) =~= ids@.map_values(|e: PropertyId| e@));
    }
    copy
}

impl Router {
    /// Constructs a router without routes.
    pub fn new() -> (router: Router)
        ensures
            router@.routes.len() == 0,
    {
        Router { routes: Vec::new() }
    }

    /// Registers what the command `command_id` of the template `template_id`
    /// reads and fires.
    pub fn route(
        &mut self,
        template_id: &str,
        command_id: &str,
        inputs: Vec<PropertyId>,
        events: Vec<PropertyId>,
    )
        ensures
            final(self)@ == old(self)@.with_route(
                RouteView {
                    template_id: template_id@,
                    command_id: command_id@,
                    inputs: inputs@.map_values(|e: PropertyId| e@),
                    events: events@.map_values(|e: PropertyId| e@),
                },
            ),
    {
        let route = Route {
            template_id: NodeId::from(template_id),
            command_id: PropertyId::from(command_id),
            inputs,
            events,
        };
        self.routes.push(route);
        proof {
            assert(self@.routes =~= old(self)@.routes.push(route@));
        }
    }

    /// Returns whether the router has a route for some command of the template.
    pub fn knows(&self, template_id: &str) -> (known: bool)
        ensures
            known == self@.knows(template_id@),
    {
        let wanted = NodeId::from(template_id);
        let mut i: usize = 0;
        while i < self.routes.len()
            invariant
                i <= self.routes.len(),
                wanted@ == template_id@,
                forall|j: int|
                    0 <= j < i ==> (#[trigger] self@.routes[j]).template_id != template_id@,
            decreases self.routes.len() - i,
        {
            if self.routes[i].template_id == wanted {
                proof {
                    assert(self@.routes[i as int].template_id == template_id@);
                }
                return true;
            }
            i += 1;
        }
        false
    }

    /// Position of the route of the command `command_id` of the template `template_id`.
    fn find(&self, template_id: &str, command_id: &str) -> (found: Option<usize>)
        ensures
            match found {
                Some(i) => i < self@.routes.len() && self@.route(template_id@, command_id@) == Some(
                    self@.routes[i as int],
                ),
                None => self@.route(template_id@, command_id@) is None,
            },
    {
        let template = NodeId::from(template_id);
        let command = PropertyId::from(command_id);
        let mut i: usize = 0;
        proof {
            assert(self@.routes.skip(0) =~= self@.routes);
        }
        while i < self.routes.len()
            invariant
                i <= self.routes.len(),
                template@ == template_id@,
                command@ == command_id@,
                self@.route(template_id@, command_id@) == route_among(
                    self@.routes.skip(i as int),
                    template_id@,
                    command_id@,
                ),
            decreases self.routes.len() - i,
        {
            let route = &self.routes[i];
            proof {
                let rest = self@.routes.skip(i as int);
                assert(rest.first() == route@);
                assert(rest.drop_first() =~= self@.routes.skip(i + 1));
            }
            if route.template_id == template && route.command_id == command {
                return Some(i);
            }
            i += 1;
        }
        None
    }

    /// Returns the events that the command `command_id` of the template
    /// `template_id` fires, if the router has a route for it.
    pub fn fired(&self, template_id: &str, command_id: &str) -> (events: Option<Vec<PropertyId>>)
        ensures
            match events {
                Some(events) => self@.events(template_id@, command_id@) == Some(
                    events@.map_values(|e: PropertyId| e@),
                ),
                None => self@.events(template_id@, command_id@) is None,
            },
    {
        match self.find(template_id, command_id) {
            Some(i) => {
                proof {
                    assert(self@.routes[i as int] == self.routes[i as int]@);
                }
                Some(copy_ids(&self.routes[i].events))
            },
            None => None,
        }
    }

    /// Carries out the command `command_id` on the instance of `context`, going
    /// by the routes: returns the events that fire, or the reason why the
    /// command is not carried out.
    pub fn handle(&self, context: &Context, command_id: &str) -> (fired: Result<
        Vec<PropertyId>,
        EngineError,
    >)
        ensures
            match fired {
                Ok(events) => self@.outcome(context@, command_id@) matches Ok(fired) && fired
                    == events@.map_values(|e: PropertyId| e@),
                Err(error) => self@.outcome(context@, command_id@) matches Err(reason) && reason
                    == error@,
            },
    {
        let at = match self.find(context.node.node.id.as_str(), command_id) {
            Some(at) => at,
            None => {
                return Err(EngineError::report(EngineErrorKind::UnknownCommand, command_id));
            },
        };
        let route = &self.routes[at];
        proof {
            assert(self@.routes[at as int] == route@);
            assert(route@.inputs.skip(0) =~= route@.inputs);
        }
        let mut k: usize = 0;
        while k < route.inputs.len()
            invariant
                k <= route.inputs.len(),
                self@.route(context@.node.node.id, command_id@) == Some(route@),
                missing_among(context@, route@.inputs) == missing_among(
                    context@,
                    route@.inputs.skip(k as int),
                ),
            decreases route.inputs.len() - k,
        {
            let input_id = route.inputs[k].as_str();
            proof {
                let rest = route@.inputs.skip(k as int);
                assert(rest.first() == input_id@);
                assert(rest.drop_first() =~= route@.inputs.skip(k + 1));
            }
            if let InputSource::Missing = context.input(input_id) {
                let name = hook_key_of(context.node.key.as_str(), input_id);
                return Err(EngineError::report(EngineErrorKind::MissingInput, name.as_str()));
            }
            k += 1;
        }
        Ok(copy_ids(&route.events))
    }
}

/// The behaviour of a node template, as far as the engine has to know it.
///
/// A processor may say in advance what it does, by [`routes`](Processor::routes)
/// and [`outcome`](Processor::outcome), and then has to keep to it; only of such
/// a processor is anything proved. A processor that says nothing in advance,
/// as every processor does that is written without proof, is taken as it
/// comes.
pub trait Processor {
    /// Whether the processor keeps to [`routes`](Processor::routes) and
    /// [`outcome`](Processor::outcome).
    open spec fn specified(&self) -> bool {
        false
    }

    /// The routes that [`router`](Processor::router) hands out.
    open spec fn routes(&self) -> RouterView {
        arbitrary()
    }

    /// What [`handle`](Processor::handle) makes of a command: the events that
    /// fire, or the reason why the command is not carried out.
    open spec fn outcome(&self, context: ContextView, command_id: Seq<char>) -> Result<
        Seq<Seq<char>>,
        EngineErrorView,
    > {
        arbitrary()
    }

    /// The router that tells for which templates the processor stands.
    fn router(&self) -> (router: &Router)
        ensures
            self.specified() ==> router@ == self.routes(),
    ;

    /// Carries out the command `command_id` on the instance of `context`, and
    /// returns the events that fire. A command that cannot be carried out, for
    /// want of an input or for any other reason, is skipped: the reason is
    /// returned in place of events.
    fn handle(&self, context: &Context, command_id: &str) -> (fired: Result<
        Vec<PropertyId>,
        EngineError,
    >)
        ensures
            self.specified() ==> match fired {
                Ok(events) => self.outcome(context@, command_id@) matches Ok(fired) && fired
                    == events@.map_values(|e: PropertyId| e@),
                Err(error) => self.outcome(context@, command_id@) matches Err(reason) && reason
                    == error@,
            },
    ;
}

} // verus!
