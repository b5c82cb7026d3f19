//! Core of a small 2D platformer: a dynamic player body moves under gravity
//! and keyboard control while colliding with a static ground slab.
//!
//! The crate owns the decision logic only: resolving held keys into movement
//! axes, the per-tick velocity update with its one-sided horizontal clamp,
//! and the startup configuration of the physics world (gravity vector, ground
//! collider, player body). Windowing, rendering, input sampling and the
//! physics integration itself belong to an engine outside this crate; the
//! surrounding application hands plain values in and writes plain values back.
//!
//! All quantities are integers in a fixed-point convention: distances in
//! units, velocities in milli-units per second, tick deltas in milliseconds,
//! scale factors in thousandths. The engine-facing shell converts to and from
//! the engine's own floating-point values at the boundary.

pub mod input;
pub mod movement;
pub mod world;
