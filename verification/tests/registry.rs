use asset_loader::registry::{AssetHandle, AssetRegistry, AssetStatus, CompletionEvent, LoadOutcome};

#[test]
fn a_registered_asset_starts_loading() {
    let mut reg = AssetRegistry::new();
    assert_eq!(reg.len(), 0);
    let h = reg.register("models/starting_warehouse.glb");
    assert_eq!(reg.len(), 1);
    assert!(!reg.is_ready(&h));
    assert_eq!(reg.status_of(&h), Some(AssetStatus::Loading));
    // Not ready is not an error: the data is simply absent for now.
    assert!(reg.get(&h).is_none());
    assert_eq!(reg.path_of(&h).unwrap(), "models/starting_warehouse.glb");
}

#[test]
fn completion_makes_an_asset_ready() {
    let mut reg = AssetRegistry::new();
    let h = reg.register("models/box.glb");
    reg.observe(&CompletionEvent { handle: h, outcome: LoadOutcome::Loaded });
    assert!(reg.is_ready(&h));
    assert_eq!(reg.status_of(&h), Some(AssetStatus::Ready));
    assert_eq!(reg.get(&h).unwrap(), "models/box.glb");
}

#[test]
fn failure_makes_an_asset_failed_and_unreadable() {
    let mut reg = AssetRegistry::new();
    let h = reg.register("models/scanner.glb");
    reg.observe(&CompletionEvent { handle: h, outcome: LoadOutcome::Errored });
    assert_eq!(reg.status_of(&h), Some(AssetStatus::Failed));
    assert!(!reg.is_ready(&h));
    assert!(reg.get(&h).is_none());
}

#[test]
fn duplicate_notifications_change_nothing() {
    let mut reg = AssetRegistry::new();
    let h = reg.register("audio/ambience.wav");
    reg.observe(&CompletionEvent { handle: h, outcome: LoadOutcome::Loaded });
    // A later contradictory duplicate is ignored: completion is terminal.
    reg.observe(&CompletionEvent { handle: h, outcome: LoadOutcome::Errored });
    assert_eq!(reg.status_of(&h), Some(AssetStatus::Ready));
}

#[test]
fn unknown_handles_are_ignored() {
    let mut reg = AssetRegistry::new();
    let h = reg.register("models/playerhand.glb");
    let stranger = AssetHandle { id: 7 };
    assert_eq!(reg.status_of(&stranger), None);
    assert!(reg.get(&stranger).is_none());
    assert!(reg.path_of(&stranger).is_none());
    reg.observe(&CompletionEvent { handle: stranger, outcome: LoadOutcome::Loaded });
    assert_eq!(reg.status_of(&h), Some(AssetStatus::Loading));
    assert_eq!(reg.len(), 1);
}
