use agentira::characters::{
    chef_accessory, default_chef_traits, default_girl_traits, girl_accessory, is_cooking,
    ChefAccessory, ChefMood, ChefPersonality, GirlAccessory, GirlMood, GirlPersonality,
};

#[test]
fn chef_accessories() {
    assert_eq!(chef_accessory(ChefPersonality::Energetic), ChefAccessory::Spatula);
    assert_eq!(chef_accessory(ChefPersonality::Gentle), ChefAccessory::Flower);
    assert_eq!(chef_accessory(ChefPersonality::Cool), ChefAccessory::Glasses);
}

#[test]
fn girl_accessories() {
    assert_eq!(girl_accessory(GirlPersonality::Cheerful), GirlAccessory::Headdress);
    assert_eq!(girl_accessory(GirlPersonality::Sweet), GirlAccessory::Ribbon);
    assert_eq!(girl_accessory(GirlPersonality::Cool), GirlAccessory::HairPins);
}

#[test]
fn defaults() {
    assert_eq!(default_chef_traits(), (ChefPersonality::Gentle, ChefMood::Happy));
    assert_eq!(default_girl_traits(), (GirlPersonality::Cheerful, GirlMood::Happy));
}

#[test]
fn cooking_task_only() {
    assert!(is_cooking(&Some("cooking".to_string())));
    assert!(!is_cooking(&Some("Cooking".to_string())));
    assert!(!is_cooking(&Some("cooking ".to_string())));
    assert!(!is_cooking(&Some("chopping".to_string())));
    assert!(!is_cooking(&None));
}
