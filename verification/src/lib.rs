//! The simulation and combat core of a small real-time arena: a monster, the
//! hunters that chase it, and what happens when the physics engine reports that
//! they touched.
//!
//! The core holds no floating-point arithmetic. Numbers that the physics engine
//! measures cross the boundary as [`single::Single`] bit patterns, which the core
//! compares and carries but never computes with; times are whole nanoseconds and
//! sprite scales whole millionths.

pub mod combat;
pub mod components;
pub mod events;
pub mod explosion;
pub mod invariants;
pub mod physics;
pub mod single;
pub mod spawn;
pub mod steering;
pub mod store;

