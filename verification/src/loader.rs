//! The load-state machine and the per-tick scene systems, owned by one
//! context value that the host passes into every scheduled callback.
//!
//! Each tick the host drains its completion notifications and queries its
//! input service, hands both to [`LoaderCore::tick`], and performs the
//! returned [`Action`]s. The core decides; it performs no I/O itself.
//!
//! The tick runs three steps in order: the one-shot instantiation service
//! (so instantiation runs no earlier than the tick after the transition to
//! `Done` was recorded), then the completion poller, then the interactive
//! spawner. The spawner fires only once the instantiation service has run,
//! so no spawn instruction can ever precede the scene's instantiation —
//! neither across ticks nor within one tick's instruction list.

use vstd::prelude::*;
use crate::actions::{Action, BodyKind, PACKAGE_EDGE_MILLI, PACKAGE_FRICTION_MILLI, SPAWN_HEIGHT_MILLI};
use crate::pack::MyAssetPack;
use crate::registry::{AssetRegistry, AssetStatus, CompletionEvent, EntryModel, LoadOutcome, mark};
use crate::state::AssetLoaderState;

verus! {

/// The mathematical model of the whole core: the machine state, the
/// registered assets, the pack of handles, the one-shot instantiation flag,
/// and the last observed level of the spawn key (for edge triggering).
#[verifier::ext_equal]
pub struct CoreModel {
    /// The load-state machine's state.
    pub state: AssetLoaderState,
    /// The registry's entries.
    pub assets: Seq<EntryModel>,
    /// The handles of the scene's assets.
    pub pack: MyAssetPack,
    /// Whether the instantiation service has already run.
    pub instantiated: bool,
    /// Whether the spawn key was down when last polled.
    pub prev_key: bool,
}

impl CoreModel {
    /// The registry position of the primary asset.
    pub open spec fn primary(self) -> int {
        self.pack.main_scene.id as int
    }

    /// The registry position of the interactively spawned prop.
    pub open spec fn prop(self) -> int {
        self.pack.package.id as int
    }

    /// The invariant every core value keeps:
    /// - every pack handle names a registered asset;
    /// - the instantiation service runs only in `Done`;
    /// - `Done` is entered only once the primary asset's data is ready, so
    ///   no instantiation can read data that has not arrived.
    pub open spec fn inv(self) -> bool {
        &&& self.pack.wf(self.assets)
        &&& (self.instantiated ==> self.state == AssetLoaderState::Done)
        &&& (self.state == AssetLoaderState::Done ==> self.assets[self.primary()].status
            == AssetStatus::Ready)
    }
}

/// One step of the completion poller: the notified entry moves out of
/// `Loading` as the outcome says, and the machine state follows. Only a
/// fresh notification (for an entry still `Loading`) can move the state:
/// a failure moves `Loading` to `Failed`; the primary asset's completion
/// moves `Loading` to `Done`; every duplicate or unknown notification, and
/// every notification observed outside `Loading`, changes nothing. This is
/// the idempotent transition guard: the transition out of `Loading` is
/// requested at most once.
pub open spec fn step_event(m: CoreModel, e: CompletionEvent) -> CoreModel {
    let i = e.handle.id as int;
    let fresh = 0 <= i < m.assets.len() && m.assets[i].status == AssetStatus::Loading;
    let state = if m.state == AssetLoaderState::Loading && fresh {
        if e.outcome == LoadOutcome::Errored {
            AssetLoaderState::Failed
        } else if e.handle.id == m.pack.main_scene.id {
            AssetLoaderState::Done
        } else {
            AssetLoaderState::Loading
        }
    } else {
        m.state
    };
    CoreModel { state, assets: mark(m.assets, i, e.outcome), ..m }
}

/// The completion poller over one tick's worth of notifications, oldest
/// first.
pub open spec fn apply_events(m: CoreModel, es: Seq<CompletionEvent>) -> CoreModel
    decreases es.len(),
{
    if es.len() == 0 {
        m
    } else {
        apply_events(step_event(m, es[0]), es.skip(1))
    }
}

/// What the instantiation service does to the core: on its one run (state
/// `Done`, not yet instantiated) it records that it ran; otherwise nothing.
pub open spec fn step_scene(m: CoreModel) -> CoreModel {
    if m.state == AssetLoaderState::Done && !m.instantiated {
        CoreModel { instantiated: true, ..m }
    } else {
        m
    }
}

/// What the instantiation service asks of the host on its one run:
/// instantiate the primary scene at the origin — skipped, as a defensive
/// no-op, in the unreachable case that the primary asset is not ready —
/// and begin looped playback of the ambience clip. Playback takes the
/// handle, not the data, so it is not gated on the clip's completion.
pub open spec fn scene_actions(m: CoreModel) -> Seq<Action> {
    if m.state == AssetLoaderState::Done && !m.instantiated {
        let play = Action::PlayAudio { asset: m.pack.ambience_sound, looped: true };
        if m.primary() < m.assets.len() && m.assets[m.primary()].status == AssetStatus::Ready {
            seq![
                Action::SpawnScene {
                    asset: m.pack.main_scene,
                    x_milli: 0,
                    y_milli: 0,
                    z_milli: 0,
                },
                play,
            ]
        } else {
            seq![play]
        }
    } else {
        Seq::<Action>::empty()
    }
}

/// Whether the interactive spawner fires: only in `Done` and after the
/// one-shot instantiation service has run — the spawner works the frames
/// thereafter, never before the scene stands — only on the tick the spawn
/// key goes from released to pressed, and only once the prop asset's data
/// is ready.
pub open spec fn spawn_emits(m: CoreModel, spawn_key_down: bool) -> bool {
    &&& m.state == AssetLoaderState::Done
    &&& m.instantiated
    &&& spawn_key_down && !m.prev_key
    &&& m.prop() < m.assets.len()
    &&& m.assets[m.prop()].status == AssetStatus::Ready
}

/// The one entity a spawn-key edge produces: the prop's scene subtree above
/// the origin, with a box collider, the configured friction, a dynamic
/// body, and the package tag.
pub open spec fn package_action(pack: MyAssetPack) -> Action {
    Action::SpawnPackage {
        asset: pack.package,
        y_milli: SPAWN_HEIGHT_MILLI,
        edge_milli: PACKAGE_EDGE_MILLI,
        friction_milli: PACKAGE_FRICTION_MILLI,
        body: BodyKind::Dynamic,
    }
}

/// What the interactive spawner does to the core: it records the key level
/// for the next tick's edge detection, and nothing else.
pub open spec fn step_spawn(m: CoreModel, spawn_key_down: bool) -> CoreModel {
    CoreModel { prev_key: spawn_key_down, ..m }
}

/// One whole tick: instantiation service, then completion poller, then
/// interactive spawner.
pub open spec fn step_tick(m: CoreModel, es: Seq<CompletionEvent>, spawn_key_down: bool) -> CoreModel {
    step_spawn(apply_events(step_scene(m), es), spawn_key_down)
}

/// Every instruction one whole tick hands to the host.
pub open spec fn tick_actions(m: CoreModel, es: Seq<CompletionEvent>, spawn_key_down: bool) -> Seq<
    Action,
> {
    let polled = apply_events(step_scene(m), es);
    scene_actions(m) + if spawn_emits(polled, spawn_key_down) {
        seq![package_action(polled.pack)]
    } else {
        Seq::<Action>::empty()
    }
}

/// The context value owning the loader: the state machine, the registry,
/// the pack, and the two per-tick flags.
pub struct LoaderCore {
    state: AssetLoaderState,
    registry: AssetRegistry,
    pack: MyAssetPack,
    instantiated: bool,
    prev_key: bool,
}

impl View for LoaderCore {
    type V = CoreModel;

    closed spec fn view(&self) -> CoreModel {
        CoreModel {
            state: self.state,
            assets: self.registry@,
            pack: self.pack,
            instantiated: self.instantiated,
            prev_key: self.prev_key,
        }
    }
}

impl LoaderCore {
    /// The invariant, stated of the exec value.
    pub open spec fn inv(&self) -> bool {
        self@.inv()
    }

    /// Issues the load requests of the whole pack and starts the machine in
    /// `Loading`, with the instantiation service not yet run.
    pub fn new() -> (core: LoaderCore)
        ensures
            core.inv(),
            core@.state == AssetLoaderState::Loading,
            !core@.instantiated,
            !core@.prev_key,
            core@.assets.len() == 5,
            core@.assets[core@.primary()] == (EntryModel {
                path: "models/starting_warehouse.glb"@,
                status: AssetStatus::Loading,
            }),
            core@.assets[core@.prop()] == (EntryModel {
                path: "models/box.glb"@,
                status: AssetStatus::Loading,
            }),
            core@.assets[core@.pack.scanner.id as int] == (EntryModel {
                path: "models/scanner.glb"@,
                status: AssetStatus::Loading,
            }),
            core@.assets[core@.pack.ambience_sound.id as int] == (EntryModel {
                path: "audio/ambience.wav"@,
                status: AssetStatus::Loading,
            }),
            core@.assets[core@.pack.player_hand.id as int] == (EntryModel {
                path: "models/playerhand.glb"@,
                status: AssetStatus::Loading,
            }),
            core@.pack.main_scene.id != core@.pack.package.id,
            forall|i: int|
                0 <= i < core@.assets.len() ==> core@.assets[i].status == AssetStatus::Loading,
    {
        let mut registry = AssetRegistry::new();
        let pack = MyAssetPack::register_all(&mut registry);
        LoaderCore {
            state: AssetLoaderState::Loading,
            registry,
            pack,
            instantiated: false,
            prev_key: false,
        }
    }

    /// The machine's current state.
    pub fn state(&self) -> (s: AssetLoaderState)
        ensures
            s == self@.state,
    {
        self.state
    }

    /// Whether the instantiation service has already run.
    pub fn instantiated(&self) -> (b: bool)
        ensures
            b == self@.instantiated,
    {
        self.instantiated
    }

    /// The pack of handles, for the host and for other subsystems to read.
    pub fn pack(&self) -> (p: &MyAssetPack)
        ensures
            *p == self@.pack,
    {
        &self.pack
    }

    /// The registry, read-only, for the host and for other subsystems.
    pub fn registry(&self) -> (r: &AssetRegistry)
        ensures
            r@ == self@.assets,
    {
        &self.registry
    }

    /// The completion poller, one notification at a time: records the
    /// outcome in the registry and moves the machine state as
    /// [`step_event`] says.
    pub fn apply_event(&mut self, e: &CompletionEvent)
        requires
            old(self).inv(),
        ensures
            final(self).inv(),
            final(self)@ == step_event(old(self)@, *e),
    {
        let fresh = match self.registry.status_of(&e.handle) {
            Some(AssetStatus::Loading) => true,
            _ => false,
        };
        self.registry.observe(e);
        if matches!(self.state, AssetLoaderState::Loading) && fresh {
            if matches!(e.outcome, LoadOutcome::Errored) {
                self.state = AssetLoaderState::Failed;
            } else if e.handle.id == self.pack.main_scene.id {
                self.state = AssetLoaderState::Done;
            }
        }
        proof {
            assert(final(self)@ =~= step_event(old(self)@, *e));
        }
    }

    /// The scene instantiation service. On its one run — the first tick
    /// that finds the state `Done` — it asks the host to instantiate the
    /// primary scene at the origin and to begin looped ambience playback;
    /// on every other tick it asks nothing and changes nothing.
    pub fn load_scene(&mut self) -> (out: Vec<Action>)
        requires
            old(self).inv(),
        ensures
            final(self).inv(),
            final(self)@ == step_scene(old(self)@),
            out@ == scene_actions(old(self)@),
            out@.len() != 0 <==> (old(self)@.state == AssetLoaderState::Done
                && !old(self)@.instantiated),
            old(self)@.state == AssetLoaderState::Done && !old(self)@.instantiated
                ==> out@.len() == 2,
    {
        let mut out: Vec<Action> = Vec::new();
        if matches!(self.state, AssetLoaderState::Done) && !self.instantiated {
            // Unreachable skip: the invariant has the primary asset ready
            // whenever the state is `Done`.
            if self.registry.is_ready(&self.pack.main_scene) {
                out.push(
                    Action::SpawnScene {
                        asset: self.pack.main_scene,
                        x_milli: 0,
                        y_milli: 0,
                        z_milli: 0,
                    },
                );
            }
            out.push(Action::PlayAudio { asset: self.pack.ambience_sound, looped: true });
            self.instantiated = true;
        }
        proof {
            assert(out@ =~= scene_actions(old(self)@));
        }
        out
    }

    /// The interactive spawner: on a spawn-key edge, in `Done` with the
    /// scene already instantiated and the prop's data ready, it asks the
    /// host for exactly one new dynamic package entity; on every other
    /// tick it asks nothing. It always records the key level for the next
    /// tick's edge detection.
    pub fn spawn_box(&mut self, spawn_key_down: bool) -> (out: Option<Action>)
        requires
            old(self).inv(),
        ensures
            final(self).inv(),
            final(self)@ == step_spawn(old(self)@, spawn_key_down),
            out == if spawn_emits(old(self)@, spawn_key_down) {
                Some(package_action(old(self)@.pack))
            } else {
                None::<Action>
            },
    {
        let mut out: Option<Action> = None;
        if self.registry.is_ready(&self.pack.package) {
            if matches!(self.state, AssetLoaderState::Done) && self.instantiated && spawn_key_down
                && !self.prev_key {
                out = Some(
                    Action::SpawnPackage {
                        asset: self.pack.package,
                        y_milli: SPAWN_HEIGHT_MILLI,
                        edge_milli: PACKAGE_EDGE_MILLI,
                        friction_milli: PACKAGE_FRICTION_MILLI,
                        body: BodyKind::Dynamic,
                    },
                );
            }
        }
        self.prev_key = spawn_key_down;
        proof {
            assert(final(self)@ =~= step_spawn(old(self)@, spawn_key_down));
        }
        out
    }

    /// One whole tick: the instantiation service, then this tick's drained
    /// completion notifications in order, then the interactive spawner.
    /// Returns every instruction for the host, in that order.
    pub fn tick(&mut self, events: &Vec<CompletionEvent>, spawn_key_down: bool) -> (out: Vec<
        Action,
    >)
        requires
            old(self).inv(),
        ensures
            final(self).inv(),
            final(self)@ == step_tick(old(self)@, events@, spawn_key_down),
            out@ == tick_actions(old(self)@, events@, spawn_key_down),
    {
        let ghost m1 = step_scene(old(self)@);
        let mut out = self.load_scene();
        proof {
            assert(events@.skip(0) =~= events@);
        }
        let mut idx: usize = 0;
        while idx < events.len()
            invariant
                idx <= events@.len(),
                self.inv(),
                apply_events(self@, events@.skip(idx as int)) == apply_events(m1, events@),
            decreases events@.len() - idx,
        {
            proof {
                assert(events@.skip(idx as int).len() > 0);
                assert(events@.skip(idx as int)[0] == events@[idx as int]);
                assert(events@.skip(idx as int).skip(1) =~= events@.skip(idx as int + 1));
            }
            self.apply_event(&events[idx]);
            idx += 1;
        }
        proof {
            assert(events@.skip(events@.len() as int) =~= Seq::<CompletionEvent>::empty());
            assert(self@ == apply_events(m1, events@));
        }
        if let Some(a) = self.spawn_box(spawn_key_down) {
            out.push(a);
        }
        proof {
            assert(out@ =~= tick_actions(old(self)@, events@, spawn_key_down));
        }
        out
    }
}

} // verus!
