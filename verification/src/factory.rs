//! The factory's shared counters and the decisions that change them.
use vstd::prelude::*;

verus! {

/// What an agent does in the factory.
#[derive(Clone, Copy, Debug, PartialEq, Eq, Structural)]
pub enum AgentRole {
    /// Walks to the nearest resource node, picks it up, brings it to storage.
    Collector,
    /// Patrols the construction area.
    Builder,
    /// Works next to the factory.
    Worker,
}

/// What can be carried.
#[derive(Clone, Copy, Debug, PartialEq, Eq, Structural)]
pub enum ResourceType {
    Iron,
    Product,
}

/// The kinds of building.
#[derive(Clone, Copy, Debug, PartialEq, Eq, Structural)]
pub enum BuildingType {
    Factory,
    Storage,
}

/// The factory-wide counters.
#[derive(Clone, Copy, Debug, PartialEq, Eq, Structural)]
pub struct FactoryState {
    /// Iron delivered to storage and not yet turned into a product.
    pub iron_collected: u32,
    /// Products finished so far.
    pub products_made: u32,
}

/// What a collector does in one tick.
#[derive(Clone, Copy, Debug, PartialEq, Eq, Structural)]
pub enum CollectorAction {
    /// Keeps walking towards its target (or has none).
    Travel,
    /// Picks up the resource node it reached; the node leaves the world.
    PickUp,
    /// Hands its load to storage.
    Deliver,
}

/// The outcome of one collector tick: its new load and what it did.
#[derive(Clone, Copy, Debug, PartialEq, Eq, Structural)]
pub struct CollectorStep {
    pub carrying: Option<ResourceType>,
    pub action: CollectorAction,
}

/// The most resource nodes that the spawner lets stand in the world at once.
pub const MAX_RESOURCE_NODES: usize = 12;

impl FactoryState {
    /// All iron ever delivered: what is still in stock plus what became products.
    pub open spec fn throughput(self) -> int {
        self.iron_collected + self.products_made
    }

    /// Whether a building of this type works this tick.
    pub open spec fn produces(self, building: BuildingType) -> bool {
        building == BuildingType::Factory && self.iron_collected > 0
    }

    /// The counters after a factory finishes a batch: one iron (if any is left)
    /// is used up and one product is made.
    pub open spec fn after_batch(self) -> FactoryState {
        FactoryState {
            iron_collected: if self.iron_collected > 0 {
                (self.iron_collected - 1) as u32
            } else {
                0
            },
            products_made: (self.products_made + 1) as u32,
        }
    }

    /// Whether a collector tick with this load and arrival would overflow the
    /// iron counter.
    pub open spec fn delivery_fits(self, carrying: Option<ResourceType>, arrived: bool) -> bool {
        arrived && carrying is Some ==> self.iron_collected < u32::MAX
    }

    /// One collector tick. `arrived` says whether the collector had a target
    /// (storage when loaded, the nearest resource node when empty) and is now
    /// within reach of it.
    pub open spec fn collector_next(self, carrying: Option<ResourceType>, arrived: bool) -> (
        FactoryState,
        CollectorStep,
    ) {
        if !arrived {
            (self, CollectorStep { carrying, action: CollectorAction::Travel })
        } else {
            match carrying {
                Some(_) => (
                    FactoryState {
                        iron_collected: (self.iron_collected + 1) as u32,
                        ..self
                    },
                    CollectorStep { carrying: None, action: CollectorAction::Deliver },
                ),
                None => (
                    self,
                    CollectorStep {
                        carrying: Some(ResourceType::Iron),
                        action: CollectorAction::PickUp,
                    },
                ),
            }
        }
    }

    /// A factory with nothing collected or made yet.
    pub fn new() -> (state: FactoryState)
        ensures
            state.iron_collected == 0,
            state.products_made == 0,
            state.throughput() == 0,
    {
        FactoryState { iron_collected: 0, products_made: 0 }
    }

    /// Whether `building` produces this tick: only a factory does, and only
    /// while some iron is in stock.
    pub fn can_produce(&self, building: BuildingType) -> (producing: bool)
        ensures
            producing == self.produces(building),
    {
        match building {
            BuildingType::Factory => self.iron_collected > 0,
            BuildingType::Storage => false,
        }
    }

    /// A factory finished a batch: one iron leaves the stock (the stock never
    /// goes below zero) and one more product is counted.
    pub fn complete_batch(&mut self)
        requires
            old(self).products_made < u32::MAX,
        ensures
            *final(self) == old(self).after_batch(),
    {
        self.iron_collected = if self.iron_collected > 0 {
            self.iron_collected - 1
        } else {
            0
        };
        self.products_made = self.products_made + 1;
    }

    /// One collector tick. A loaded collector that reached storage hands in
    /// its load, which adds one to the iron stock; an empty collector that
    /// reached a resource node picks up iron; otherwise nothing changes.
    pub fn collector_update(&mut self, carrying: Option<ResourceType>, arrived: bool) -> (step:
        CollectorStep)
        requires
            old(self).delivery_fits(carrying, arrived),
        ensures
            (*final(self), step) == old(self).collector_next(carrying, arrived),
    {
        if !arrived {
            return CollectorStep { carrying, action: CollectorAction::Travel };
        }
        match carrying {
            Some(_) => {
                self.iron_collected = self.iron_collected + 1;
                CollectorStep { carrying: None, action: CollectorAction::Deliver }
            },
            None => CollectorStep { carrying: Some(ResourceType::Iron), action: CollectorAction::PickUp },
        }
    }
}

/// Whether the spawner places a new resource node: its timer has run out and
/// fewer than `MAX_RESOURCE_NODES` nodes stand in the world.
pub fn should_spawn_resource(timer_expired: bool, resource_count: usize) -> (spawn: bool)
    ensures
        spawn == (timer_expired && resource_count < MAX_RESOURCE_NODES),
{
    timer_expired && resource_count < MAX_RESOURCE_NODES
}

/// A finished batch keeps all delivered iron accounted for: while iron is in
/// stock, one unit moves from the stock to the products and the sum stays.
pub proof fn lemma_batch_conserves_iron(state: FactoryState)
    requires
        state.iron_collected > 0,
        state.products_made < u32::MAX,
    ensures
        state.after_batch().throughput() == state.throughput(),
        state.after_batch().iron_collected == state.iron_collected - 1,
        state.after_batch().products_made == state.products_made + 1,
{
}

/// A factory only ever finishes a batch while it produces, and producing
/// needs iron in stock, so the stock never has to be clamped at zero.
pub proof fn lemma_production_needs_iron(state: FactoryState, building: BuildingType)
    requires
        state.produces(building),
        state.products_made < u32::MAX,
    ensures
        building == BuildingType::Factory,
        state.after_batch().iron_collected + 1 == state.iron_collected,
{
}

/// A collector tick counts exactly its deliveries: a delivery adds one to the
/// delivered total, any other tick leaves the counters as they were.
pub proof fn lemma_collector_counts_deliveries(
    state: FactoryState,
    carrying: Option<ResourceType>,
    arrived: bool,
)
    requires
        state.delivery_fits(carrying, arrived),
    ensures
        ({
            let (next, step) = state.collector_next(carrying, arrived);
            &&& next.products_made == state.products_made
            &&& next.throughput() == state.throughput() + if step.action
                == CollectorAction::Deliver {
                1int
            } else {
                0int
            }
        }),
{
}

/// A collector carries at most one thing at a time: it picks up only with
/// empty hands, delivers only when loaded, and keeps its load while travelling.
pub proof fn lemma_collector_carries_one(
    state: FactoryState,
    carrying: Option<ResourceType>,
    arrived: bool,
)
    ensures
        ({
            let step = state.collector_next(carrying, arrived).1;
            &&& step.action == CollectorAction::PickUp ==> carrying is None && step.carrying
                == Some(ResourceType::Iron)
            &&& step.action == CollectorAction::Deliver ==> carrying is Some && step.carrying
                is None
            &&& step.action == CollectorAction::Travel ==> step.carrying == carrying
        }),
{
}

/// One event that touches the factory counters: a collector tick with the
/// collector's load and whether it arrived, or a factory finishing a batch.
pub enum FactoryEvent {
    CollectorTick { carrying: Option<ResourceType>, arrived: bool },
    BatchDone,
}

/// The counters after one event.
pub open spec fn apply_event(state: FactoryState, event: FactoryEvent) -> FactoryState {
    match event {
        FactoryEvent::CollectorTick { carrying, arrived } => state.collector_next(
            carrying,
            arrived,
        ).0,
        FactoryEvent::BatchDone => state.after_batch(),
    }
}

/// Whether an event can happen in this state as the simulation runs it: a
/// tick must not overflow the iron counter, and a batch finishes only in a
/// producing factory and must not overflow the product counter.
pub open spec fn event_allowed(state: FactoryState, event: FactoryEvent) -> bool {
    match event {
        FactoryEvent::CollectorTick { carrying, arrived } => state.delivery_fits(carrying, arrived),
        FactoryEvent::BatchDone => state.produces(BuildingType::Factory) && state.products_made
            < u32::MAX,
    }
}

/// The counters after a run of events, applied in order.
pub open spec fn run_events(state: FactoryState, events: Seq<FactoryEvent>) -> FactoryState
    decreases events.len(),
{
    if events.len() == 0 {
        state
    } else {
        run_events(apply_event(state, events[0]), events.drop_first())
    }
}

/// Whether every event of a run is allowed in the state it meets.
pub open spec fn run_allowed(state: FactoryState, events: Seq<FactoryEvent>) -> bool
    decreases events.len(),
{
    events.len() == 0 || (event_allowed(state, events[0]) && run_allowed(
        apply_event(state, events[0]),
        events.drop_first(),
    ))
}

/// Whether an event is a delivery to storage.
pub open spec fn is_delivery(event: FactoryEvent) -> bool {
    event matches FactoryEvent::CollectorTick { carrying: Some(_), arrived: true }
}

/// How many deliveries a run holds.
pub open spec fn delivery_count(events: Seq<FactoryEvent>) -> nat
    decreases events.len(),
{
    if events.len() == 0 {
        0
    } else {
        (if is_delivery(events[0]) {
            1nat
        } else {
            0nat
        }) + delivery_count(events.drop_first())
    }
}

/// Over any run the simulation allows, the iron in stock plus the products
/// made grows by exactly the number of deliveries: no iron appears or
/// vanishes between storage and the factory.
pub proof fn lemma_run_accounts_for_deliveries(state: FactoryState, events: Seq<FactoryEvent>)
    requires
        run_allowed(state, events),
    ensures
        run_events(state, events).throughput() == state.throughput() + delivery_count(events),
    decreases events.len(),
{
    if events.len() > 0 {
        let next = apply_event(state, events[0]);
        match events[0] {
            FactoryEvent::CollectorTick { carrying, arrived } => {
                lemma_collector_counts_deliveries(state, carrying, arrived);
            },
            FactoryEvent::BatchDone => {
                lemma_batch_conserves_iron(state);
            },
        }
        lemma_run_accounts_for_deliveries(next, events.drop_first());
    }
}

/// A collector's tick depends only on its load and on whether it arrived,
/// never on the counters: an empty collector that arrives picks up one iron
/// and leaves the counters alone; a loaded one that arrives hands in its load,
/// which adds exactly one to the iron stock and nothing to the products; one
/// that has not arrived keeps its load and changes nothing.
pub proof fn lemma_collector_tick(state: FactoryState, carrying: Option<ResourceType>, arrived: bool)
    requires
        state.delivery_fits(carrying, arrived),
    ensures
        ({
            let (next, step) = state.collector_next(carrying, arrived);
            &&& (carrying is None && arrived) ==> next == state && step.carrying == Some(
                ResourceType::Iron,
            ) && step.action == CollectorAction::PickUp
            &&& (carrying is Some && arrived) ==> next.iron_collected == state.iron_collected + 1
                && next.products_made == state.products_made && step.carrying is None
                && step.action == CollectorAction::Deliver
            &&& !arrived ==> next == state && step.carrying == carrying && step.action
                == CollectorAction::Travel
        }),
{
}

/// Which buildings produce: every factory with at least one iron in stock,
/// whatever it has made before; never a storage; never a factory without iron.
pub proof fn lemma_which_buildings_produce(state: FactoryState, building: BuildingType)
    ensures
        building == BuildingType::Factory && state.iron_collected > 0 ==> state.produces(building),
        building == BuildingType::Storage ==> !state.produces(building),
        state.iron_collected == 0 ==> !state.produces(building),
{
}

/// A finished batch always counts one more product; it takes one iron from a
/// non-empty stock and leaves an empty stock empty.
pub proof fn lemma_batch_effect(state: FactoryState)
    requires
        state.products_made < u32::MAX,
    ensures
        state.after_batch().products_made == state.products_made + 1,
        state.iron_collected > 0 ==> state.after_batch().iron_collected == state.iron_collected
            - 1,
        state.iron_collected == 0 ==> state.after_batch().iron_collected == 0,
{
}

/// The spawner places a node exactly when its timer has run out and fewer than
/// twelve nodes stand.
pub proof fn lemma_spawn_rule(timer_expired: bool, resource_count: usize)
    ensures
        MAX_RESOURCE_NODES == 12,
        (timer_expired && resource_count < MAX_RESOURCE_NODES) <==> (timer_expired
            && resource_count < 12),
{
}

/// The spawner never pushes the number of resource nodes past the cap.
pub proof fn lemma_spawn_respects_cap(timer_expired: bool, resource_count: usize)
    requires
        resource_count <= MAX_RESOURCE_NODES,
    ensures
        (timer_expired && resource_count < MAX_RESOURCE_NODES) ==> resource_count + 1
            <= MAX_RESOURCE_NODES,
{
}

} // verus!
