//! Agentira: the rules of a small factory simulation and of its kitchen
//! dashboard, stated as contracts and proved.
//!
//! - `factory`: the shared counters, the collectors' pick-up and delivery
//!   cycle, factory production and the resource spawn cap.
//! - `layout`: where things stand when the world is set up.
//! - `tasks`: the recipe task list and the dashboard labels.
//! - `characters`: the kitchen characters' personalities and accessories.
pub mod factory;
pub mod tasks;
pub mod layout;
pub mod characters;
