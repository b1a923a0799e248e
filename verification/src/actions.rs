//! The instructions the core hands back to the host each tick. The core
//! never touches the scene graph, the audio device or the physics service
//! itself: it decides, and the host performs.
//!
//! Lengths and coefficients are carried as integer thousandths of a unit
//! ("milli"), so that the core stays in integer arithmetic; the host divides
//! by 1000 for its floating-point services.

use vstd::prelude::*;
use crate::registry::AssetHandle;

verus! {

/// Vertical placement offset of an interactively spawned package, in
/// thousandths of a unit: 2.5 units above the origin, clear of the ground.
pub const SPAWN_HEIGHT_MILLI: i32 = 2500;

/// Edge length of the spawned package's box collider, in thousandths of a
/// unit: a 0.7-unit cube, on the order of the package model.
pub const PACKAGE_EDGE_MILLI: u32 = 700;

/// Friction coefficient of the spawned package's collider, in thousandths:
/// 1.2.
pub const PACKAGE_FRICTION_MILLI: u32 = 1200;

/// How the physics service is to classify a spawned body.
#[derive(PartialEq, Eq, Structural, Clone, Copy, Debug)]
pub enum BodyKind {
    /// Moves under simulation.
    Dynamic,
    /// Immovable.
    Fixed,
}

/// One instruction to the host, produced by a tick of the core.
#[derive(PartialEq, Eq, Structural, Clone, Copy, Debug)]
pub enum Action {
    /// Instantiate the scene subtree of `asset` into the live scene graph,
    /// with its origin at the given position. Only ever issued for an asset
    /// whose data is ready.
    SpawnScene {
        /// The completed scene asset to instantiate.
        asset: AssetHandle,
        /// Placement, in thousandths of a unit per axis.
        x_milli: i32,
        y_milli: i32,
        z_milli: i32,
    },
    /// Begin playback of the audio clip `asset`. Playback takes the handle,
    /// not the data: the audio service starts as soon as the clip streams in.
    PlayAudio {
        /// The audio clip to play.
        asset: AssetHandle,
        /// Whether playback repeats without end.
        looped: bool,
    },
    /// Instantiate one interactively spawned package: the prop's scene
    /// subtree, a box collider, a friction coefficient, a body
    /// classification, and the package gameplay tag. Only ever issued for a
    /// prop asset whose data is ready.
    SpawnPackage {
        /// The completed prop asset to instantiate.
        asset: AssetHandle,
        /// Vertical placement, in thousandths of a unit.
        y_milli: i32,
        /// Edge length of the box collider, in thousandths of a unit.
        edge_milli: u32,
        /// Friction coefficient, in thousandths.
        friction_milli: u32,
        /// Physics classification of the spawned body.
        body: BodyKind,
    },
}

} // verus!
