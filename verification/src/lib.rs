//! The entity-component core of a small 2D platformer.
//!
//! Entities are dense integer ids. Each component type has one table, indexed
//! by entity id, that is created when a component of that type is first
//! attached. A fixed pipeline of gameplay systems runs over the tables once per
//! tick. Every real-valued quantity (positions, velocities, extents) is held as
//! a signed count of millionths, so that each result is exact and the same on
//! every machine.
pub mod units;
pub mod input;
pub mod components;
pub mod tables;
pub mod systems;
pub mod renderer;
pub mod pipeline;
pub mod game;
pub mod laws;
