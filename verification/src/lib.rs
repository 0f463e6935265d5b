//! Simulation core of an Asteroids-style arcade game.
//!
//! Entities (asteroids, missiles, the spaceship) live on an integer
//! coordinate grid.  Each frame the caller advances every entity, runs the
//! three collision passes, and applies the resulting removals and spawns.
//! Rendering and input polling are left to the embedding program.

pub mod vec2;
pub mod screen;
pub mod stellarobject;
pub mod asteroid;
pub mod missile;
pub mod spaceship;
pub mod game;
