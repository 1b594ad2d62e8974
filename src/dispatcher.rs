//! The routing table of one input: from trigger id to the ordered list of
//! destinations that handlers wire it to, and the fan-out of an event to them.
use vstd::prelude::*;
use crate::config::HandlerConfig;
use crate::data::{ActionId, ActionableEvent, ElId, InputId, OutputId, TriggerId, TriggeredEvent};

verus! {

/// One destination of a trigger: an action of an output.
#[derive(Debug, Clone)]
pub struct Route {
    pub output: OutputId,
    pub action: ActionId,
}

/// The destinations of one trigger, in handler order.
#[derive(Debug, Clone)]
pub struct RouteGroup {
    pub trigger: TriggerId,
    pub routes: Vec<Route>,
}

/// Why a routing table could not be built.
#[derive(Debug, Clone)]
pub enum RouteError {
    /// A handler of the input names an output that is not registered.
    UnknownOutput(OutputId),
}

pub open spec fn route_views(routes: Seq<Route>) -> Seq<(Seq<char>, Seq<char>)> {
    routes.map_values(|r: Route| (r.output@, r.action@))
}

/// Whether a handler starts at `trigger` of `input`.
pub open spec fn wires(h: HandlerConfig, input: Seq<char>, trigger: Seq<char>) -> bool {
    h.trigger.input_id@ == input && h.trigger.trigger_id@ == trigger
}

/// The `(output, action)` pairs that the handlers wire `trigger` of `input` to,
/// in declaration order, duplicates kept.
pub open spec fn routes_of(handlers: Seq<HandlerConfig>, input: Seq<char>, trigger: Seq<char>) -> Seq<
    (Seq<char>, Seq<char>),
>
    decreases handlers.len(),
{
    if handlers.len() == 0 {
        seq![]
    } else {
        let rest = routes_of(handlers.drop_last(), input, trigger);
        let h = handlers.last();
        if wires(h, input, trigger) {
            rest.push((h.action.output_id@, h.action.action_id@))
        } else {
            rest
        }
    }
}

pub open spec fn registered(outputs: Seq<OutputId>, id: Seq<char>) -> bool {
    exists|k: int| 0 <= k < outputs.len() && (#[trigger] outputs[k])@ == id
}

/// Whether some handler of `input` names an output that is not registered.
pub open spec fn has_unknown_output(handlers: Seq<HandlerConfig>, input: Seq<char>, outputs: Seq<OutputId>) -> bool {
    exists|i: int|
        0 <= i < handlers.len() && (#[trigger] handlers[i]).trigger.input_id@ == input && !registered(
            outputs,
            handlers[i].action.output_id@,
        )
}

pub open spec fn groups_distinct(groups: Seq<RouteGroup>) -> bool {
    forall|j: int, k: int| 0 <= j < k < groups.len() ==> groups[j].trigger@ != groups[k].trigger@
}

/// The destinations of `trigger` in a list of groups.
pub open spec fn lookup(groups: Seq<RouteGroup>, trigger: Seq<char>) -> Seq<(Seq<char>, Seq<char>)> {
    if exists|j: int| 0 <= j < groups.len() && (#[trigger] groups[j]).trigger@ == trigger {
        let j = choose|j: int| 0 <= j < groups.len() && (#[trigger] groups[j]).trigger@ == trigger;
        route_views(groups[j].routes@)
    } else {
        seq![]
    }
}

/// The routing table of one input. Each trigger has at most one group.
#[derive(Debug)]
pub struct RoutingTable {
    input: InputId,
    groups: Vec<RouteGroup>,
}

impl RoutingTable {
    #[verifier::type_invariant]
    spec fn distinct(&self) -> bool {
        groups_distinct(self.groups@)
    }

    pub closed spec fn input_view(&self) -> Seq<char> {
        self.input@
    }

    /// The destinations of a trigger, in handler order.
    pub closed spec fn routes(&self, trigger: Seq<char>) -> Seq<(Seq<char>, Seq<char>)> {
        lookup(self.groups@, trigger)
    }

    pub fn input(&self) -> (r: &InputId)
        ensures
            r@ == self.input_view(),
    {
        &self.input
    }

    /// Builds the table of `input` from the handlers: the handlers that start at
    /// the input, grouped by trigger, each group in declaration order. Fails
    /// when such a handler names an output that `outputs` does not hold.
    pub fn build(input: &InputId, handlers: &Vec<HandlerConfig>, outputs: &Vec<OutputId>) -> (r: Result<
        RoutingTable,
        RouteError,
    >)
        ensures
            r is Err <==> has_unknown_output(handlers@, input@, outputs@),
            r matches Err(RouteError::UnknownOutput(o)) ==> exists|i: int|
                0 <= i < handlers@.len() && (#[trigger] handlers@[i]).trigger.input_id@ == input@
                    && handlers@[i].action.output_id@ == o@ && !registered(outputs@, o@),
            r matches Ok(t) ==> t.input_view() == input@ && forall|trigger: Seq<char>|
                #[trigger] t.routes(trigger) == routes_of(handlers@, input@, trigger),
    {
        let n = handlers.len();
        let mut i: usize = 0;
        while i < n
            invariant
                n == handlers@.len(),
                i <= n,
                forall|j: int|
                    0 <= j < i && (#[trigger] handlers@[j]).trigger.input_id@ == input@ ==> registered(
                        outputs@,
                        handlers@[j].action.output_id@,
                    ),
            decreases n - i,
        {
            let h = &handlers[i];
            if h.trigger.input_id.same_as(input) && !is_registered(outputs, &h.action.output_id) {
                return Err(RouteError::UnknownOutput(h.action.output_id.duplicate()));
            }
            i = i + 1;
        }
        let mut groups: Vec<RouteGroup> = Vec::new();
        let mut i: usize = 0;
        while i < n
            invariant
                n == handlers@.len(),
                i <= n,
                groups_distinct(groups@),
                forall|j: int|
                    0 <= j < groups@.len() ==> route_views((#[trigger] groups@[j]).routes@) == routes_of(
                        handlers@.subrange(0, i as int),
                        input@,
                        groups@[j].trigger@,
                    ),
                forall|t: Seq<char>|
                    (forall|j: int| 0 <= j < groups@.len() ==> (#[trigger] groups@[j]).trigger@ != t) ==> (
                    #[trigger] routes_of(handlers@.subrange(0, i as int), input@, t)).len() == 0,
            decreases n - i,
        {
            let h = &handlers[i];
            let ghost prefix = handlers@.subrange(0, i as int);
            let ghost next = handlers@.subrange(0, i + 1);
            assert(next.drop_last() =~= prefix);
            assert(next.last() == handlers@[i as int]);
            let ghost old_groups = groups@;
            if h.trigger.input_id.same_as(input) {
                let route = Route { output: h.action.output_id.duplicate(), action: h.action.action_id.duplicate() };
                let ghost t = h.trigger.trigger_id@;
                let ghost mut at: int = 0;
                match find_group(&groups, &h.trigger.trigger_id) {
                    Some(j) => {
                        let mut g = groups.remove(j);
                        let ghost old_routes = g.routes@;
                        g.routes.push(route);
                        assert(route_views(g.routes@) =~= route_views(old_routes).push(
                            (h.action.output_id@, h.action.action_id@),
                        ));
                        groups.insert(j, g);
                        proof {
                            at = j as int;
                        }
                        assert forall|k: int| 0 <= k < groups@.len() implies (#[trigger] groups@[k]).trigger@
                            == old_groups[k].trigger@ by {}
                        assert forall|k: int|
                            0 <= k < groups@.len() implies route_views((#[trigger] groups@[k]).routes@)
                            == routes_of(next, input@, groups@[k].trigger@) by {
                            if k != j {
                                assert(groups@[k] == old_groups[k]);
                            }
                        }
                    },
                    None => {
                        let group = RouteGroup { trigger: h.trigger.trigger_id.duplicate(), routes: vec![route] };
                        assert(routes_of(prefix, input@, t).len() == 0);
                        assert(route_views(group.routes@) =~= routes_of(next, input@, t));
                        groups.push(group);
                        proof {
                            at = old_groups.len() as int;
                        }
                        assert forall|k: int|
                            0 <= k < groups@.len() implies route_views((#[trigger] groups@[k]).routes@)
                            == routes_of(next, input@, groups@[k].trigger@) by {
                            if k < old_groups.len() {
                                assert(groups@[k] == old_groups[k]);
                            }
                        }
                    },
                }
                assert forall|t2: Seq<char>|
                    (forall|j: int| 0 <= j < groups@.len() ==> (#[trigger] groups@[j]).trigger@ != t2) implies (
                    #[trigger] routes_of(next, input@, t2)).len() == 0 by {
                    assert(groups@[at].trigger@ == t);
                    assert(routes_of(next, input@, t2) == routes_of(prefix, input@, t2));
                    assert forall|j: int| 0 <= j < old_groups.len() implies (
                    #[trigger] old_groups[j]).trigger@ != t2 by {
                        assert(groups@[j].trigger@ == old_groups[j].trigger@);
                    }
                }
            } else {
                assert forall|t2: Seq<char>| #[trigger] routes_of(next, input@, t2) == routes_of(
                    prefix,
                    input@,
                    t2,
                ) by {}
            }
            i = i + 1;
        }
        assert(handlers@.subrange(0, n as int) =~= handlers@);
        let table = RoutingTable { input: input.duplicate(), groups };
        assert forall|trigger: Seq<char>| #[trigger] table.routes(trigger) == routes_of(handlers@, input@, trigger) by {
            if exists|j: int| 0 <= j < table.groups@.len() && (#[trigger] table.groups@[j]).trigger@ == trigger {
            } else {
            }
        }
        Ok(table)
    }

    /// The events that one triggered event fans out to: one per destination of
    /// its trigger, in handler order, each with the event's data unchanged. A
    /// trigger without destinations gives none.
    pub fn route(&self, event: &TriggeredEvent) -> (r: Vec<ActionableEvent>)
        ensures
            r@.len() == self.routes(event.trigger@).len(),
            forall|k: int|
                0 <= k < r@.len() ==> {
                    &&& (#[trigger] r@[k]).output@ == self.routes(event.trigger@)[k].0
                    &&& r@[k].action@ == self.routes(event.trigger@)[k].1
                    &&& r@[k].data.same(&event.data)
                },
    {
        proof {
            use_type_invariant(self);
        }
        let mut events: Vec<ActionableEvent> = Vec::new();
        match find_group(&self.groups, &event.trigger) {
            None => {
                return events;
            },
            Some(j) => {
                let routes = &self.groups[j].routes;
                assert(route_views(routes@) == self.routes(event.trigger@));
                let n = routes.len();
                let mut k: usize = 0;
                while k < n
                    invariant
                        n == routes@.len(),
                        k <= n,
                        events@.len() == k,
                        forall|m: int|
                            0 <= m < k ==> {
                                &&& (#[trigger] events@[m]).output@ == routes@[m].output@
                                &&& events@[m].action@ == routes@[m].action@
                                &&& events@[m].data.same(&event.data)
                            },
                    decreases n - k,
                {
                    let route = &routes[k];
                    events.push(
                        ActionableEvent {
                            output: route.output.duplicate(),
                            action: route.action.duplicate(),
                            data: event.data.duplicate(),
                        },
                    );
                    k = k + 1;
                }
                events
            },
        }
    }
}

fn is_registered(outputs: &Vec<OutputId>, id: &OutputId) -> (r: bool)
    ensures
        r == registered(outputs@, id@),
{
    let n = outputs.len();
    let mut k: usize = 0;
    while k < n
        invariant
            n == outputs@.len(),
            k <= n,
            forall|m: int| 0 <= m < k ==> (#[trigger] outputs@[m])@ != id@,
        decreases n - k,
    {
        if outputs[k].same_as(id) {
            return true;
        }
        k = k + 1;
    }
    false
}

fn find_group(groups: &Vec<RouteGroup>, trigger: &ElId) -> (r: Option<usize>)
    ensures
        r matches Some(j) ==> j < groups@.len() && groups@[j as int].trigger@ == trigger@,
        r is None ==> forall|j: int| 0 <= j < groups@.len() ==> (#[trigger] groups@[j]).trigger@ != trigger@,
{
    let n = groups.len();
    let mut k: usize = 0;
    while k < n
        invariant
            n == groups@.len(),
            k <= n,
            forall|m: int| 0 <= m < k ==> (#[trigger] groups@[m]).trigger@ != trigger@,
        decreases n - k,
    {
        if groups[k].trigger.same_as(trigger) {
            return Some(k);
        }
        k = k + 1;
    }
    None
}

proof fn lemma_no_wiring_no_routes(handlers: Seq<HandlerConfig>, input: Seq<char>, trigger: Seq<char>)
    requires
        forall|i: int| 0 <= i < handlers.len() ==> !wires(#[trigger] handlers[i], input, trigger),
    ensures
        routes_of(handlers, input, trigger).len() == 0,
    decreases handlers.len(),
{
    if handlers.len() > 0 {
        let rest = handlers.drop_last();
        assert forall|i: int| 0 <= i < rest.len() implies !wires(#[trigger] rest[i], input, trigger) by {
            assert(rest[i] == handlers[i]);
        }
        lemma_no_wiring_no_routes(rest, input, trigger);
    }
}

/// A trigger that no handler of the input wires anywhere has no destinations
/// in a table built from those handlers: its events fan out to nothing.
pub proof fn lemma_unwired_trigger_routes_nowhere(
    table: RoutingTable,
    handlers: Seq<HandlerConfig>,
    input: Seq<char>,
    trigger: Seq<char>,
)
    requires
        forall|t: Seq<char>| #[trigger] table.routes(t) == routes_of(handlers, input, t),
        forall|i: int| 0 <= i < handlers.len() ==> !wires(#[trigger] handlers[i], input, trigger),
    ensures
        table.routes(trigger).len() == 0,
{
    lemma_no_wiring_no_routes(handlers, input, trigger);
    assert(table.routes(trigger) == routes_of(handlers, input, trigger));
}

} // verus!
