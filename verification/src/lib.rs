//! Game logic of "Dodge the Creeps": the decisions that the player, the
//! mobs, the heads-up display and the main scene take on each engine event,
//! stated as verified functions from state and event to next state and
//! actions. The engine side (nodes, timers, physics, audio, floating-point
//! geometry) lives with the caller, which performs the returned actions.

pub mod decimal;
pub mod player;
pub mod mob;
pub mod hud;
pub mod main_scene;
pub mod routes;
