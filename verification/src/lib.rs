//! Entity-component simulation core of a 2D sprite game.
//!
//! Per-frame movement commands are turned into entity state changes
//! (position, velocity, animation frame) by three systems run in
//! dependency order by a dispatcher; the resulting state is exposed
//! read-only for drawing.

pub mod animation;
pub mod animator;
pub mod components;
pub mod dispatcher;
pub mod keyboard;
pub mod physics;
pub mod world;
