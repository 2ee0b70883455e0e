//! A planar many-body simulation: bodies under mutual gravitation and
//! collisions, one of them steerable, advanced in fixed steps.
//!
//! The library keeps the state of a simulation and decides what may happen
//! to it: which bodies and parameters make a simulation, which pairs of
//! bodies a step looks at, which bodies an outcome may touch, what a session's
//! loop does next, and which session belongs to which identity. Numbers are
//! held by their binary64 encoding; the arithmetic on them is the caller's.

pub mod body;
pub mod control;
pub mod engine;
pub mod invariants;
pub mod kinds;
pub mod number;
pub mod registry;
pub mod request;
pub mod schedule;
pub mod simulation;

pub use body::SpaceObject;
pub use control::ControllableAcceleration;
pub use kinds::{CollisionType, MovementType};
pub use number::{Real, Vector2};
pub use simulation::Simulation;
