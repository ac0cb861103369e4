use agentira::factory::{AgentRole, BuildingType};
use agentira::layout::{
    grid_lines, initial_buildings, initial_resource_sites, initial_roster, role_accessory,
    AgentAccessory, GRID_HALF_SPAN,
};

#[test]
fn resource_sites() {
    assert_eq!(
        initial_resource_sites(),
        vec![(-10, -6), (-10, 10), (-6, -10), (-6, 6), (6, -6), (6, 10), (10, -10), (10, 6)]
    );
    for (x, z) in initial_resource_sites() {
        assert_eq!((x + z) % 8, 0);
    }
}

#[test]
fn roster() {
    let (c, b, w) = (AgentRole::Collector, AgentRole::Builder, AgentRole::Worker);
    assert_eq!(initial_roster(), vec![c, c, c, b, b, w, w]);
}

#[test]
fn buildings() {
    assert_eq!(
        initial_buildings(),
        vec![(BuildingType::Factory, 0, -6), (BuildingType::Storage, 5, 0)]
    );
}

#[test]
fn grid() {
    let lines = grid_lines();
    assert_eq!(lines.len(), 33);
    assert_eq!(lines[0].offset, -GRID_HALF_SPAN);
    assert_eq!(lines[32].offset, GRID_HALF_SPAN);
    let majors: Vec<i32> = lines.iter().filter(|l| l.major).map(|l| l.offset).collect();
    assert_eq!(majors, vec![-16, -12, -8, -4, 0, 4, 8, 12, 16]);
    assert!(!lines[17].major);
    assert!(!lines[15].major);
}

#[test]
fn accessories() {
    assert_eq!(role_accessory(AgentRole::Collector), AgentAccessory::Backpack);
    assert_eq!(role_accessory(AgentRole::Builder), AgentAccessory::Helmet);
    assert_eq!(role_accessory(AgentRole::Worker), AgentAccessory::Tool);
}
