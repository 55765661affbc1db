//! Pointer picking input resolution for an entity-component game engine.
//!
//! The library turns raw mouse and touch device state into logical pointer
//! values, resolves window-space positions against a camera's viewport
//! geometry (including the Y-axis flip between window space and viewport
//! space), and decides, per configurable update policy, whether a pick
//! source's cached ray-cast position is refreshed on a frame without a new
//! device event.
//!
//! The host engine owns entity storage, event queues and windowing; it hands
//! this library plain values each frame (event snapshots, camera geometry,
//! the pick-source states) and writes the results back into its world.

pub mod cursor;
pub mod pointer;
pub mod update;
pub mod viewport;
