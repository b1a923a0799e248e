use asset_loader::actions::{
    Action, BodyKind, PACKAGE_EDGE_MILLI, PACKAGE_FRICTION_MILLI, SPAWN_HEIGHT_MILLI,
};
use asset_loader::loader::LoaderCore;
use asset_loader::registry::{CompletionEvent, LoadOutcome};
use asset_loader::state::AssetLoaderState;

fn loaded(handle: asset_loader::registry::AssetHandle) -> Vec<CompletionEvent> {
    vec![CompletionEvent { handle, outcome: LoadOutcome::Loaded }]
}

#[test]
fn the_pack_registers_the_scene_paths() {
    let core = LoaderCore::new();
    let pack = *core.pack();
    let reg = core.registry();
    assert_eq!(reg.len(), 5);
    assert_eq!(reg.path_of(&pack.main_scene).unwrap(), "models/starting_warehouse.glb");
    assert_eq!(reg.path_of(&pack.package).unwrap(), "models/box.glb");
    assert_eq!(reg.path_of(&pack.scanner).unwrap(), "models/scanner.glb");
    assert_eq!(reg.path_of(&pack.ambience_sound).unwrap(), "audio/ambience.wav");
    assert_eq!(reg.path_of(&pack.player_hand).unwrap(), "models/playerhand.glb");
}

#[test]
fn loading_until_the_primary_asset_completes() {
    let mut core = LoaderCore::new();
    let pack = *core.pack();
    // Ticks with no notifications, secondary completions, and spawn presses:
    // the state stays Loading and nothing is asked of the host.
    assert!(core.tick(&Vec::new(), false).is_empty());
    assert!(core.tick(&loaded(pack.scanner), true).is_empty());
    assert!(core.tick(&loaded(pack.player_hand), true).is_empty());
    assert_eq!(core.state(), AssetLoaderState::Loading);
    assert!(!core.instantiated());
}

#[test]
fn warehouse_scene_flow() {
    let mut core = LoaderCore::new();
    let pack = *core.pack();
    // Ticks 1 to 4: nothing completes.
    for _ in 0..4 {
        assert!(core.tick(&Vec::new(), false).is_empty());
        assert_eq!(core.state(), AssetLoaderState::Loading);
    }
    // Tick 5: the primary asset completes; the transition is recorded this
    // tick, and the instantiation service runs no earlier than the next.
    let out5 = core.tick(&loaded(pack.main_scene), false);
    assert!(out5.is_empty());
    assert_eq!(core.state(), AssetLoaderState::Done);
    // Tick 6: one scene instantiation, and the ambience begins looping.
    let out6 = core.tick(&Vec::new(), false);
    assert_eq!(
        out6,
        vec![
            Action::SpawnScene { asset: pack.main_scene, x_milli: 0, y_milli: 0, z_milli: 0 },
            Action::PlayAudio { asset: pack.ambience_sound, looped: true },
        ],
    );
    // And never again.
    assert!(core.tick(&Vec::new(), false).is_empty());
}

#[test]
fn duplicate_completions_transition_once() {
    let mut core = LoaderCore::new();
    let pack = *core.pack();
    let out = core.tick(&loaded(pack.main_scene), false);
    assert!(out.is_empty());
    assert_eq!(core.state(), AssetLoaderState::Done);
    let out = core.tick(&Vec::new(), false);
    assert_eq!(out.len(), 2);
    // N further duplicate notifications for the same asset: the state stays
    // Done and no second instantiation is asked for.
    for _ in 0..5 {
        assert!(core.tick(&loaded(pack.main_scene), false).is_empty());
        assert_eq!(core.state(), AssetLoaderState::Done);
    }
}

#[test]
fn one_package_per_spawn_key_edge() {
    let mut core = LoaderCore::new();
    let pack = *core.pack();
    // Complete the primary and the prop, and let the one-shot service run.
    core.tick(&loaded(pack.main_scene), false);
    core.tick(&loaded(pack.package), false);
    core.tick(&Vec::new(), false);
    // Key pressed once: exactly one dynamic box entity, 2.5 units up, with
    // the configured collider and friction.
    let out = core.tick(&Vec::new(), true);
    assert_eq!(
        out,
        vec![Action::SpawnPackage {
            asset: pack.package,
            y_milli: SPAWN_HEIGHT_MILLI,
            edge_milli: PACKAGE_EDGE_MILLI,
            friction_milli: PACKAGE_FRICTION_MILLI,
            body: BodyKind::Dynamic,
        }],
    );
    assert_eq!(SPAWN_HEIGHT_MILLI, 2500);
    assert_eq!(PACKAGE_EDGE_MILLI, 700);
    assert_eq!(PACKAGE_FRICTION_MILLI, 1200);
    // Held down: edge-triggered, so no further entity.
    assert!(core.tick(&Vec::new(), true).is_empty());
    assert!(core.tick(&Vec::new(), true).is_empty());
    // Three more presses with releases in between: three more entities.
    let mut spawned = 0;
    for _ in 0..3 {
        assert!(core.tick(&Vec::new(), false).is_empty());
        spawned += core.tick(&Vec::new(), true).len();
    }
    assert_eq!(spawned, 3);
}

#[test]
fn no_spawn_before_the_scene_is_instantiated() {
    let mut core = LoaderCore::new();
    let pack = *core.pack();
    // The prop is ready early, while still Loading.
    assert!(core.tick(&loaded(pack.package), false).is_empty());
    // The primary completes on the very tick the spawn key edges in: the
    // transition is recorded, but nothing may spawn before the scene
    // stands, so the tick hands the host nothing.
    let out = core.tick(&loaded(pack.main_scene), true);
    assert!(out.is_empty());
    assert_eq!(core.state(), AssetLoaderState::Done);
    assert!(!core.instantiated());
    // Next tick, key still held: the instantiation runs, and the held key
    // is no edge, so no package either.
    let out = core.tick(&Vec::new(), true);
    assert_eq!(out.len(), 2);
    assert!(core.instantiated());
}

#[test]
fn instantiation_precedes_the_spawn_within_one_tick() {
    let mut core = LoaderCore::new();
    let pack = *core.pack();
    assert!(core.tick(&loaded(pack.package), false).is_empty());
    assert!(core.tick(&loaded(pack.main_scene), false).is_empty());
    // A key edge on the instantiation tick itself: the scene and the
    // ambience come first in the instruction list, the package after.
    let out = core.tick(&Vec::new(), true);
    assert_eq!(
        out,
        vec![
            Action::SpawnScene { asset: pack.main_scene, x_milli: 0, y_milli: 0, z_milli: 0 },
            Action::PlayAudio { asset: pack.ambience_sound, looped: true },
            Action::SpawnPackage {
                asset: pack.package,
                y_milli: SPAWN_HEIGHT_MILLI,
                edge_milli: PACKAGE_EDGE_MILLI,
                friction_milli: PACKAGE_FRICTION_MILLI,
                body: BodyKind::Dynamic,
            },
        ],
    );
    assert!(core.instantiated());
}

#[test]
fn no_spawn_while_the_prop_is_unresolved() {
    let mut core = LoaderCore::new();
    let pack = *core.pack();
    // Still Loading: presses do nothing.
    for _ in 0..3 {
        assert!(core.tick(&Vec::new(), true).is_empty());
        assert!(core.tick(&Vec::new(), false).is_empty());
    }
    // Done, but the prop itself has not resolved: still nothing.
    core.tick(&loaded(pack.main_scene), false);
    let out = core.tick(&Vec::new(), false);
    assert_eq!(out.len(), 2);
    for _ in 0..3 {
        assert!(core.tick(&Vec::new(), true).is_empty());
        assert!(core.tick(&Vec::new(), false).is_empty());
    }
    assert_eq!(core.state(), AssetLoaderState::Done);
}

#[test]
fn a_load_failure_is_terminal_and_visible() {
    let mut core = LoaderCore::new();
    let pack = *core.pack();
    let failed = vec![CompletionEvent { handle: pack.scanner, outcome: LoadOutcome::Errored }];
    assert!(core.tick(&failed, false).is_empty());
    assert_eq!(core.state(), AssetLoaderState::Failed);
    // The machine never reaches Done afterwards: the primary's completion
    // is ignored, nothing is instantiated, presses spawn nothing.
    assert!(core.tick(&loaded(pack.main_scene), true).is_empty());
    assert!(core.tick(&Vec::new(), true).is_empty());
    assert_eq!(core.state(), AssetLoaderState::Failed);
    assert!(!core.instantiated());
}

#[test]
fn the_default_state_is_loading() {
    assert_eq!(AssetLoaderState::default(), AssetLoaderState::Loading);
}
