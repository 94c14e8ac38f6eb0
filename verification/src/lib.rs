//! Core logic of a small 2D bullet-hell arcade prototype: the combat state
//! machine, the damage and invulnerability pipeline, and the faction-routed
//! upgrade broadcast registry, together with the timer-driven spawners that
//! feed them. Rendering, physics and input are external collaborators; this
//! crate holds the rules they drive.

pub mod cannon;
pub mod collision;
pub mod config;
pub mod dash;
pub mod faction;
pub mod game;
pub mod health;
pub mod index;
pub mod input;
pub mod laser;
pub mod level;
pub mod level_end;
pub mod level_transition;
pub mod menu;
pub mod metagame;
pub mod physics_layers;
pub mod player;
pub mod pool;
pub mod rng;
pub mod state;
pub mod timer;
pub mod upgrades;
pub mod vec2;
pub mod wander;
