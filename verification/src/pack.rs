//! The fixed asset pack of the starting scene: one central record mapping
//! each logical name to the handle of its load request. The paths are the
//! only configuration and are fixed constants; the record's structure never
//! changes after registration, only the per-asset statuses in the registry
//! move as completions are observed.

use vstd::prelude::*;
use crate::registry::{AssetEntry, AssetHandle, AssetRegistry, AssetStatus, EntryModel};

verus! {

/// The handles of the starting scene's assets, one per logical name.
#[derive(PartialEq, Eq, Structural, Clone, Copy, Debug)]
pub struct MyAssetPack {
    /// The primary asset: the scene model the loader gates on.
    pub main_scene: AssetHandle,
    /// The prop model spawned interactively.
    pub package: AssetHandle,
    /// The scanner model.
    pub scanner: AssetHandle,
    /// The looping ambience clip.
    pub ambience_sound: AssetHandle,
    /// The player-hand model.
    pub player_hand: AssetHandle,
}

impl MyAssetPack {
    /// Every handle of the pack names an entry of `assets`.
    pub open spec fn wf(self, assets: Seq<EntryModel>) -> bool {
        &&& self.main_scene.id < assets.len()
        &&& self.package.id < assets.len()
        &&& self.scanner.id < assets.len()
        &&& self.ambience_sound.id < assets.len()
        &&& self.player_hand.id < assets.len()
    }

    /// Issues the load request for every asset of the pack against an empty
    /// registry, and returns the pack of the issued handles. Every entry
    /// starts out `Loading`.
    pub fn register_all(reg: &mut AssetRegistry) -> (pack: MyAssetPack)
        requires
            old(reg)@.len() == 0,
        ensures
            final(reg)@.len() == 5,
            pack.wf(final(reg)@),
            final(reg)@[pack.main_scene.id as int] == (EntryModel {
                path: "models/starting_warehouse.glb"@,
                status: AssetStatus::Loading,
            }),
            final(reg)@[pack.package.id as int] == (EntryModel {
                path: "models/box.glb"@,
                status: AssetStatus::Loading,
            }),
            final(reg)@[pack.scanner.id as int] == (EntryModel {
                path: "models/scanner.glb"@,
                status: AssetStatus::Loading,
            }),
            final(reg)@[pack.ambience_sound.id as int] == (EntryModel {
                path: "audio/ambience.wav"@,
                status: AssetStatus::Loading,
            }),
            final(reg)@[pack.player_hand.id as int] == (EntryModel {
                path: "models/playerhand.glb"@,
                status: AssetStatus::Loading,
            }),
            pack.main_scene.id == 0,
            pack.package.id == 1,
            pack.scanner.id == 2,
            pack.ambience_sound.id == 3,
            pack.player_hand.id == 4,
            forall|i: int|
                0 <= i < final(reg)@.len() ==> final(reg)@[i].status == AssetStatus::Loading,
    {
        let main_scene = reg.register("models/starting_warehouse.glb");
        let package = reg.register("models/box.glb");
        let scanner = reg.register("models/scanner.glb");
        let ambience_sound = reg.register("audio/ambience.wav");
        let player_hand = reg.register("models/playerhand.glb");
        MyAssetPack { main_scene, package, scanner, ambience_sound, player_hand }
    }
}

} // verus!
