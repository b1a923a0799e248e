//! The laws of the loader, proved over whole runs of the host loop: the
//! state stays `Loading` until the primary asset completes, the transition
//! to `Done` and the instantiation service are one-shot, and the spawner
//! produces exactly one package per spawn-key edge.

use vstd::prelude::*;
use crate::actions::Action;
use crate::loader::{
    CoreModel, apply_events, package_action, scene_actions, spawn_emits, step_event, step_scene,
    step_spawn, step_tick, tick_actions,
};
use crate::pack::MyAssetPack;
use crate::registry::{AssetStatus, CompletionEvent, LoadOutcome};
use crate::state::AssetLoaderState;

verus! {

/// One tick's inputs: the completion notifications the host drained, oldest
/// first, and the level of the spawn key.
#[verifier::ext_equal]
pub struct TickInput {
    /// The notifications drained this tick.
    pub events: Seq<CompletionEvent>,
    /// Whether the spawn key is down this tick.
    pub spawn_key_down: bool,
}

/// A whole run of the host loop: the ticks applied in order.
pub open spec fn run_ticks(m: CoreModel, ticks: Seq<TickInput>) -> CoreModel
    decreases ticks.len(),
{
    if ticks.len() == 0 {
        m
    } else {
        run_ticks(step_tick(m, ticks[0].events, ticks[0].spawn_key_down), ticks.skip(1))
    }
}

/// What tick number `i` of the run starting at `m` hands to the host.
pub open spec fn tick_output_at(m: CoreModel, ticks: Seq<TickInput>, i: int) -> Seq<Action> {
    tick_actions(run_ticks(m, ticks.take(i)), ticks[i].events, ticks[i].spawn_key_down)
}

/// An event that is neither the primary asset's completion nor a failure.
pub open spec fn pre_primary_event(pack: MyAssetPack, e: CompletionEvent) -> bool {
    &&& !(e.handle.id == pack.main_scene.id && e.outcome == LoadOutcome::Loaded)
    &&& e.outcome != LoadOutcome::Errored
}

/// A tick's worth of such events.
pub open spec fn pre_primary_events(pack: MyAssetPack, es: Seq<CompletionEvent>) -> bool {
    forall|j: int| 0 <= j < es.len() ==> pre_primary_event(pack, #[trigger] es[j])
}

/// The tick about to run the instantiation service: the state is `Done` and
/// the service has not run yet.
pub open spec fn instantiation_runs(m: CoreModel) -> bool {
    m.state == AssetLoaderState::Done && !m.instantiated
}

/// The poller changes neither the pack, nor the one-shot flag, nor the
/// spawner's key memory.
pub proof fn lemma_apply_events_frame(m: CoreModel, es: Seq<CompletionEvent>)
    ensures
        apply_events(m, es).pack == m.pack,
        apply_events(m, es).instantiated == m.instantiated,
        apply_events(m, es).prev_key == m.prev_key,
    decreases es.len(),
{
    if es.len() != 0 {
        lemma_apply_events_frame(step_event(m, es[0]), es.skip(1));
    }
}

/// The poller preserves the core's invariant.
pub proof fn lemma_apply_events_inv(m: CoreModel, es: Seq<CompletionEvent>)
    requires
        m.inv(),
    ensures
        apply_events(m, es).inv(),
    decreases es.len(),
{
    if es.len() != 0 {
        lemma_apply_events_inv(step_event(m, es[0]), es.skip(1));
    }
}

///`Done` is terminal: no stream of further notifications — duplicates for
/// the primary asset included — moves the state anywhere else.
pub proof fn lemma_done_stable_events(m: CoreModel, es: Seq<CompletionEvent>)
    requires
        m.state == AssetLoaderState::Done,
    ensures
        apply_events(m, es).state == AssetLoaderState::Done,
    decreases es.len(),
{
    if es.len() != 0 {
        lemma_done_stable_events(step_event(m, es[0]), es.skip(1));
    }
}

/// Running a concatenation of tick lists is running the one, then the other.
pub proof fn lemma_run_ticks_concat(m: CoreModel, s: Seq<TickInput>, t: Seq<TickInput>)
    ensures
        run_ticks(m, s + t) == run_ticks(run_ticks(m, s), t),
    decreases s.len(),
{
    if s.len() == 0 {
        assert(s + t =~= t);
    } else {
        assert((s + t)[0] == s[0]);
        assert((s + t).skip(1) =~= s.skip(1) + t);
        lemma_run_ticks_concat(
            step_tick(m, s[0].events, s[0].spawn_key_down),
            s.skip(1),
            t,
        );
    }
}

/// Running one tick more than a prefix is one tick on the prefix's result.
pub proof fn lemma_run_ticks_take_snoc(m: CoreModel, ticks: Seq<TickInput>, i: int)
    requires
        0 <= i < ticks.len(),
    ensures
        run_ticks(m, ticks.take(i + 1)) == step_tick(
            run_ticks(m, ticks.take(i)),
            ticks[i].events,
            ticks[i].spawn_key_down,
        ),
{
    let s1 = seq![ticks[i]];
    let x = run_ticks(m, ticks.take(i));
    assert(ticks.take(i + 1) =~= ticks.take(i) + s1);
    lemma_run_ticks_concat(m, ticks.take(i), s1);
    assert(s1.skip(1) =~= Seq::<TickInput>::empty());
    assert(run_ticks(x, s1) == run_ticks(
        step_tick(x, s1[0].events, s1[0].spawn_key_down),
        s1.skip(1),
    ));
    assert(run_ticks(step_tick(x, s1[0].events, s1[0].spawn_key_down), s1.skip(1)) == step_tick(
        x,
        s1[0].events,
        s1[0].spawn_key_down,
    ));
    assert(s1[0] == ticks[i]);
}

/// Once the instantiation service has run, it stays run: no later tick can
/// clear the one-shot flag.
pub proof fn lemma_run_ticks_instantiated_monotone(m: CoreModel, ticks: Seq<TickInput>)
    requires
        m.instantiated,
    ensures
        run_ticks(m, ticks).instantiated,
    decreases ticks.len(),
{
    if ticks.len() != 0 {
        lemma_apply_events_frame(step_scene(m), ticks[0].events);
        lemma_run_ticks_instantiated_monotone(
            step_tick(m, ticks[0].events, ticks[0].spawn_key_down),
            ticks.skip(1),
        );
    }
}

/// While the state is `Loading`, a tick's worth of events that holds
/// neither the primary asset's completion nor a failure leaves the state
/// `Loading`.
pub proof fn lemma_pre_primary_events_keep_loading(m: CoreModel, es: Seq<CompletionEvent>)
    requires
        m.state == AssetLoaderState::Loading,
        pre_primary_events(m.pack, es),
    ensures
        apply_events(m, es).state == AssetLoaderState::Loading,
        apply_events(m, es).pack == m.pack,
    decreases es.len(),
{
    if es.len() != 0 {
        let m1 = step_event(m, es[0]);
        assert(pre_primary_events(m1.pack, es.skip(1))) by {
            assert forall|j: int| 0 <= j < es.skip(1).len() implies pre_primary_event(
                m1.pack,
                #[trigger] es.skip(1)[j],
            ) by {
                assert(es.skip(1)[j] == es[j + 1]);
            }
        }
        lemma_pre_primary_events_keep_loading(m1, es.skip(1));
    }
}

/// One tick that observes neither the primary asset's completion nor a
/// failure: the state stays `Loading`, the instantiation service does not
/// run, and the tick hands the host nothing at all.
pub proof fn lemma_pre_primary_tick(m: CoreModel, t: TickInput)
    requires
        m.inv(),
        m.state == AssetLoaderState::Loading,
        pre_primary_events(m.pack, t.events),
    ensures
        step_tick(m, t.events, t.spawn_key_down).state == AssetLoaderState::Loading,
        step_tick(m, t.events, t.spawn_key_down).inv(),
        step_tick(m, t.events, t.spawn_key_down).pack == m.pack,
        !step_tick(m, t.events, t.spawn_key_down).instantiated,
        tick_actions(m, t.events, t.spawn_key_down) =~= Seq::<Action>::empty(),
{
    assert(step_scene(m) == m);
    lemma_pre_primary_events_keep_loading(m, t.events);
    lemma_apply_events_inv(m, t.events);
    lemma_apply_events_frame(m, t.events);
}

/// For all ticks before the primary asset's completion notification is
/// observed, the load-state remains `Loading`, the instantiation service
/// never runs, and no tick hands the host any instruction. (A failure
/// notification is excluded too: it would take the state to the terminal
/// `Failed` diagnostic instead.)
pub proof fn lemma_loading_until_primary(m: CoreModel, ticks: Seq<TickInput>)
    requires
        m.inv(),
        m.state == AssetLoaderState::Loading,
        forall|i: int|
            0 <= i < ticks.len() ==> pre_primary_events(m.pack, (#[trigger] ticks[i]).events),
    ensures
        run_ticks(m, ticks).state == AssetLoaderState::Loading,
        !run_ticks(m, ticks).instantiated,
        run_ticks(m, ticks).inv(),
        run_ticks(m, ticks).pack == m.pack,
        forall|i: int|
            0 <= i < ticks.len() ==> #[trigger] tick_output_at(m, ticks, i) =~= Seq::<
                Action,
            >::empty(),
    decreases ticks.len(),
{
    if ticks.len() == 0 {
    } else {
        let t0 = ticks[0];
        lemma_pre_primary_tick(m, t0);
        let m1 = step_tick(m, t0.events, t0.spawn_key_down);
        let rest = ticks.skip(1);
        assert forall|i: int| 0 <= i < rest.len() implies pre_primary_events(
            m1.pack,
            (#[trigger] rest[i]).events,
        ) by {
            assert(rest[i] == ticks[i + 1]);
        }
        lemma_loading_until_primary(m1, rest);
        assert forall|i: int| 0 <= i < ticks.len() implies #[trigger] tick_output_at(
            m,
            ticks,
            i,
        ) =~= Seq::<Action>::empty() by {
            if i == 0 {
                assert(ticks.take(0) =~= Seq::<TickInput>::empty());
            } else {
                assert(ticks.take(i)[0] == t0);
                assert(ticks.take(i).skip(1) =~= rest.take(i - 1));
                assert(run_ticks(m, ticks.take(i)) == run_ticks(m1, rest.take(i - 1)));
                assert(rest[i - 1] == ticks[i]);
                assert(tick_output_at(m1, rest, i - 1) =~= Seq::<Action>::empty());
            }
        }
    }
}

/// The instantiation service runs at most once over the whole run: if it
/// runs on tick `i`, it does not run on any later tick `j`.
pub proof fn lemma_instantiation_at_most_once(
    m: CoreModel,
    ticks: Seq<TickInput>,
    i: int,
    j: int,
)
    requires
        0 <= i < j <= ticks.len(),
        instantiation_runs(run_ticks(m, ticks.take(i))),
    ensures
        !instantiation_runs(run_ticks(m, ticks.take(j))),
        scene_actions(run_ticks(m, ticks.take(j))) =~= Seq::<Action>::empty(),
{
    let mi = run_ticks(m, ticks.take(i));
    lemma_run_ticks_take_snoc(m, ticks, i);
    lemma_apply_events_frame(step_scene(mi), ticks[i].events);
    let mi1 = run_ticks(m, ticks.take(i + 1));
    assert(mi1.instantiated);
    assert(ticks.take(j) =~= ticks.take(i + 1) + ticks.subrange(i + 1, j));
    lemma_run_ticks_concat(m, ticks.take(i + 1), ticks.subrange(i + 1, j));
    lemma_run_ticks_instantiated_monotone(mi1, ticks.subrange(i + 1, j));
}

/// `Done` is terminal over whole ticks too: once entered, no later tick's
/// notifications or inputs move the state anywhere else.
pub proof fn lemma_done_stable_ticks(m: CoreModel, ticks: Seq<TickInput>)
    requires
        m.state == AssetLoaderState::Done,
    ensures
        run_ticks(m, ticks).state == AssetLoaderState::Done,
    decreases ticks.len(),
{
    if ticks.len() != 0 {
        lemma_done_stable_events(step_scene(m), ticks[0].events);
        lemma_done_stable_ticks(
            step_tick(m, ticks[0].events, ticks[0].spawn_key_down),
            ticks.skip(1),
        );
    }
}

/// A completion notification for the primary asset moves the state to
/// `Done`, and any stream of further notifications — duplicates for the
/// same asset included — leaves it there: the transition happens exactly
/// once.
pub proof fn lemma_primary_completion_exactly_once(
    m: CoreModel,
    e: CompletionEvent,
    later: Seq<CompletionEvent>,
)
    requires
        m.inv(),
        m.state == AssetLoaderState::Loading,
        e.handle.id == m.pack.main_scene.id,
        e.outcome == LoadOutcome::Loaded,
        m.assets[m.primary()].status == AssetStatus::Loading,
    ensures
        step_event(m, e).state == AssetLoaderState::Done,
        step_event(m, e).assets[m.primary()].status == AssetStatus::Ready,
        apply_events(step_event(m, e), later).state == AssetLoaderState::Done,
{
    lemma_done_stable_events(step_event(m, e), later);
}

/// A run of the interactive spawner alone: the key levels applied in order.
pub open spec fn run_spawns(m: CoreModel, keys: Seq<bool>) -> CoreModel
    decreases keys.len(),
{
    if keys.len() == 0 {
        m
    } else {
        run_spawns(step_spawn(m, keys[0]), keys.skip(1))
    }
}

/// Everything such a run asks the host to spawn, in order.
pub open spec fn spawn_outputs(m: CoreModel, keys: Seq<bool>) -> Seq<Action>
    decreases keys.len(),
{
    if keys.len() == 0 {
        Seq::<Action>::empty()
    } else {
        (if spawn_emits(m, keys[0]) {
            seq![package_action(m.pack)]
        } else {
            Seq::<Action>::empty()
        }) + spawn_outputs(step_spawn(m, keys[0]), keys.skip(1))
    }
}

/// How often the key goes from released to pressed over `keys`, starting
/// from the remembered level `prev`: the number of edge-triggered inputs.
pub open spec fn count_edges(prev: bool, keys: Seq<bool>) -> nat
    decreases keys.len(),
{
    if keys.len() == 0 {
        0
    } else {
        (if keys[0] && !prev {
            1 as nat
        } else {
            0 as nat
        }) + count_edges(keys[0], keys.skip(1))
    }
}

/// In `Done`, the scene instantiated and the prop asset resolved, M
/// edge-triggered spawn inputs produce exactly M new entities — and each
/// is the configured package: dynamic, with its box collider and its
/// friction coefficient.
pub proof fn lemma_one_package_per_edge(m: CoreModel, keys: Seq<bool>)
    requires
        m.state == AssetLoaderState::Done,
        m.instantiated,
        m.prop() < m.assets.len(),
        m.assets[m.prop()].status == AssetStatus::Ready,
    ensures
        spawn_outputs(m, keys).len() == count_edges(m.prev_key, keys),
        forall|k: int|
            0 <= k < spawn_outputs(m, keys).len() ==> #[trigger] spawn_outputs(m, keys)[k]
                == package_action(m.pack),
    decreases keys.len(),
{
    if keys.len() != 0 {
        let m1 = step_spawn(m, keys[0]);
        lemma_one_package_per_edge(m1, keys.skip(1));
        let head: Seq<Action> = if spawn_emits(m, keys[0]) {
            seq![package_action(m.pack)]
        } else {
            Seq::<Action>::empty()
        };
        assert forall|k: int| 0 <= k < spawn_outputs(m, keys).len() implies #[trigger] spawn_outputs(
            m,
            keys,
        )[k] == package_action(m.pack) by {
            if k >= head.len() {
                assert(spawn_outputs(m, keys)[k] == spawn_outputs(m1, keys.skip(1))[k - head.len()]);
            }
        }
    }
}

/// Whether performing `a` would dereference asset data, and if so, whether
/// that data is ready in `m`. Playback takes only the handle, so it
/// dereferences nothing.
pub open spec fn derefs_only_ready(m: CoreModel, a: Action) -> bool {
    match a {
        Action::SpawnScene { asset, .. } => asset.id < m.assets.len()
            && m.assets[asset.id as int].status == AssetStatus::Ready,
        Action::SpawnPackage { asset, .. } => asset.id < m.assets.len()
            && m.assets[asset.id as int].status == AssetStatus::Ready,
        Action::PlayAudio { .. } => true,
    }
}

/// `Ready` is terminal: once an asset's data has arrived, no stream of
/// notifications takes it away again.
pub proof fn lemma_ready_stable_events(m: CoreModel, es: Seq<CompletionEvent>, idx: int)
    requires
        0 <= idx < m.assets.len(),
        m.assets[idx].status == AssetStatus::Ready,
    ensures
        apply_events(m, es).assets.len() == m.assets.len(),
        apply_events(m, es).assets[idx].status == AssetStatus::Ready,
    decreases es.len(),
{
    if es.len() != 0 {
        lemma_ready_stable_events(step_event(m, es[0]), es.skip(1), idx);
    }
}

/// The invariant of the whole design, checked against every instruction a
/// tick hands to the host: no instruction dereferences an asset whose data
/// has not arrived, and the assets it names are still ready when the
/// tick's instructions reach the host.
pub proof fn lemma_actions_dereference_only_ready(
    m: CoreModel,
    es: Seq<CompletionEvent>,
    key: bool,
)
    requires
        m.inv(),
    ensures
        forall|k: int|
            0 <= k < tick_actions(m, es, key).len() ==> derefs_only_ready(
                step_tick(m, es, key),
                #[trigger] tick_actions(m, es, key)[k],
            ),
{
    let acts = tick_actions(m, es, key);
    let m1 = step_scene(m);
    let polled = apply_events(m1, es);
    let fin = step_tick(m, es, key);
    assert(m1.assets == m.assets);
    assert(fin.assets == polled.assets);
    lemma_apply_events_frame(m1, es);
    assert forall|k: int| 0 <= k < acts.len() implies derefs_only_ready(
        fin,
        #[trigger] acts[k],
    ) by {
        if k < scene_actions(m).len() {
            assert(acts[k] == scene_actions(m)[k]);
            if m.primary() < m.assets.len() && m.assets[m.primary()].status
                == AssetStatus::Ready {
                lemma_ready_stable_events(m1, es, m.primary());
            }
        } else {
            assert(acts[k] == package_action(polled.pack));
            assert(spawn_emits(polled, key));
        }
    }
}

/// A spawn instruction never precedes the scene's instantiation: where a
/// tick's instruction list holds a package spawn, the instantiation
/// service either ran on an earlier tick, or runs this very tick and its
/// instructions stand earlier in the list.
pub proof fn lemma_spawn_follows_instantiation(m: CoreModel, es: Seq<CompletionEvent>, key: bool)
    requires
        m.inv(),
    ensures
        forall|k: int|
            0 <= k < tick_actions(m, es, key).len() && (#[trigger] tick_actions(
                m,
                es,
                key,
            )[k]) is SpawnPackage ==> m.instantiated || (scene_actions(m).len() > 0 && k
                >= scene_actions(m).len()),
{
    let acts = tick_actions(m, es, key);
    let polled = apply_events(step_scene(m), es);
    lemma_apply_events_frame(step_scene(m), es);
    assert forall|k: int|
        0 <= k < acts.len() && (#[trigger] acts[k]) is SpawnPackage implies m.instantiated || (
    scene_actions(m).len() > 0 && k >= scene_actions(m).len()) by {
        if k < scene_actions(m).len() {
            assert(acts[k] == scene_actions(m)[k]);
            assert(!(acts[k] is SpawnPackage));
        } else {
            assert(spawn_emits(polled, key));
            assert(polled.instantiated == step_scene(m).instantiated);
        }
    }
}

/// While the state is `Loading`, any number of spawn-trigger inputs
/// produce zero new entities, and leave the state `Loading`.
pub proof fn lemma_no_spawn_while_loading(m: CoreModel, keys: Seq<bool>)
    requires
        m.state == AssetLoaderState::Loading,
    ensures
        spawn_outputs(m, keys) =~= Seq::<Action>::empty(),
        run_spawns(m, keys).state == AssetLoaderState::Loading,
    decreases keys.len(),
{
    if keys.len() != 0 {
        lemma_no_spawn_while_loading(step_spawn(m, keys[0]), keys.skip(1));
    }
}

} // verus!
