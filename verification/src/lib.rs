//! A scene-asset loading gate: a registry of asynchronously loading assets,
//! a one-way load-state machine, a one-shot scene instantiation service, and
//! an edge-triggered interactive spawner, all driven by a per-tick host loop.

pub mod actions;
pub mod laws;
pub mod loader;
pub mod pack;
pub mod registry;
pub mod state;
