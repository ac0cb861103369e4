use agentira::factory::{
    should_spawn_resource, AgentRole, BuildingType, CollectorAction, FactoryState,
    ResourceType, MAX_RESOURCE_NODES,
};

#[test]
fn new_factory_is_empty() {
    let state = FactoryState::new();
    assert_eq!(state.iron_collected, 0);
    assert_eq!(state.products_made, 0);
}

#[test]
fn only_a_factory_with_iron_produces() {
    let mut state = FactoryState::new();
    assert!(!state.can_produce(BuildingType::Factory));
    assert!(!state.can_produce(BuildingType::Storage));
    state.iron_collected = 2;
    assert!(state.can_produce(BuildingType::Factory));
    assert!(!state.can_produce(BuildingType::Storage));
}

#[test]
fn batch_turns_one_iron_into_one_product() {
    let mut state = FactoryState { iron_collected: 3, products_made: 5 };
    state.complete_batch();
    assert_eq!(state, FactoryState { iron_collected: 2, products_made: 6 });
    assert_eq!(state.iron_collected + state.products_made, 8);
}

#[test]
fn batch_never_takes_iron_below_zero() {
    let mut state = FactoryState { iron_collected: 0, products_made: 0 };
    state.complete_batch();
    assert_eq!(state, FactoryState { iron_collected: 0, products_made: 1 });
}

#[test]
fn empty_collector_picks_up_on_arrival() {
    let mut state = FactoryState { iron_collected: 4, products_made: 1 };
    let step = state.collector_update(None, true);
    assert_eq!(step.carrying, Some(ResourceType::Iron));
    assert_eq!(step.action, CollectorAction::PickUp);
    assert_eq!(state, FactoryState { iron_collected: 4, products_made: 1 });
}

#[test]
fn loaded_collector_delivers_on_arrival() {
    let mut state = FactoryState { iron_collected: 4, products_made: 1 };
    let step = state.collector_update(Some(ResourceType::Iron), true);
    assert_eq!(step.carrying, None);
    assert_eq!(step.action, CollectorAction::Deliver);
    assert_eq!(state, FactoryState { iron_collected: 5, products_made: 1 });
}

#[test]
fn travelling_collector_changes_nothing() {
    let mut state = FactoryState { iron_collected: 7, products_made: 2 };
    let loaded = state.collector_update(Some(ResourceType::Iron), false);
    assert_eq!(loaded.carrying, Some(ResourceType::Iron));
    assert_eq!(loaded.action, CollectorAction::Travel);
    let empty = state.collector_update(None, false);
    assert_eq!(empty.carrying, None);
    assert_eq!(empty.action, CollectorAction::Travel);
    assert_eq!(state, FactoryState { iron_collected: 7, products_made: 2 });
}

#[test]
fn a_full_round_trip_counts_one_iron() {
    let mut state = FactoryState::new();
    let mut carrying = None;
    for arrived in [false, true, false, false, true] {
        carrying = state.collector_update(carrying, arrived).carrying;
    }
    assert_eq!(carrying, None);
    assert_eq!(state.iron_collected, 1);
    assert!(state.can_produce(BuildingType::Factory));
    state.complete_batch();
    assert_eq!(state, FactoryState { iron_collected: 0, products_made: 1 });
    assert!(!state.can_produce(BuildingType::Factory));
}

#[test]
fn spawner_respects_the_cap() {
    assert_eq!(MAX_RESOURCE_NODES, 12);
    assert!(should_spawn_resource(true, 0));
    assert!(should_spawn_resource(true, 11));
    assert!(!should_spawn_resource(true, 12));
    assert!(!should_spawn_resource(true, 20));
    assert!(!should_spawn_resource(false, 3));
}

#[test]
fn roles_compare_by_variant() {
    assert_eq!(AgentRole::Collector, AgentRole::Collector);
    assert_ne!(AgentRole::Builder, AgentRole::Worker);
}

#[test]
fn stock_plus_products_counts_deliveries() {
    let mut state = FactoryState::new();
    let mut loads = [None, Some(ResourceType::Iron), None];
    let mut deliveries = 0u32;
    let ticks = [[true, true, false], [false, true, true], [true, false, true], [true, true, true]];
    for (round, arrivals) in ticks.iter().enumerate() {
        for (load, &arrived) in loads.iter_mut().zip(arrivals.iter()) {
            let step = state.collector_update(*load, arrived);
            if step.action == CollectorAction::Deliver {
                deliveries += 1;
            }
            *load = step.carrying;
        }
        if round % 2 == 1 && state.can_produce(BuildingType::Factory) {
            state.complete_batch();
        }
        assert_eq!(state.iron_collected + state.products_made, deliveries);
    }
    assert_eq!(deliveries, 4);
}
