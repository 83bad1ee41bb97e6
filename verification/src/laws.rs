//! What holds of the reload controller over one tick and over any number of
//! ticks.

use crate::controller::{
    after_open, cooled_down, quiet, reloads, run, stale, tick, ArtifactTimes, ReloadState,
    ReloadStep, Tick,
};
use crate::trampoline::{route_of, CallRoute};
use vstd::prelude::*;

verus! {

/// The same state with the flag of the last tick cleared.
pub open spec fn settled(state: ReloadState) -> ReloadState {
    ReloadState { updated_this_frame: false, ..state }
}

/// Whether the working copy exists and is at least as new as the build
/// output.
pub open spec fn reconciled(files: ArtifactTimes) -> bool {
    files.lib_file is Some && files.hot_in_use_file is Some && files.hot_in_use_file->0
        >= files.lib_file->0
}

/// Ticks that each decide on `Idle` in `state` leave the host alone however
/// many they are: nothing is copied or opened, nothing is reloaded, and the
/// state stays as it was, with the flag cleared once a tick has run.
pub proof fn idle_ticks_change_nothing(state: ReloadState, ticks: Seq<Tick>)
    requires
        forall|k: int| 0 <= k < ticks.len() ==> (#[trigger] ticks[k]).step(state) == ReloadStep::Idle,
    ensures
        quiet(state, ticks),
        reloads(state, ticks) == 0,
        run(state, ticks) == if ticks.len() == 0 {
            state
        } else {
            settled(state)
        },
    decreases ticks.len(),
{
    if ticks.len() > 0 {
        let rest = ticks.drop_first();
        let next = tick(state, ticks.first());
        assert(ticks[0].step(state) == ReloadStep::Idle);
        assert(next == settled(state));
        assert forall|k: int| 0 <= k < rest.len() implies (#[trigger] rest[k]).step(next)
            == ReloadStep::Idle by {
            assert(rest[k] == ticks[k + 1]);
            assert(ticks[k + 1].step(state) == ReloadStep::Idle);
        }
        idle_ticks_change_nothing(next, rest);
        assert(settled(next) == settled(state));
    }
}

/// While the build output is missing, a tick is a no-op: it decides on
/// `Idle`, reports no reload, leaves the handle and the time of the last
/// reload as they were, and a second such tick changes nothing more.
pub proof fn missing_build_output_is_a_no_op(state: ReloadState, t: Tick)
    requires
        t.files.lib_file is None,
    ensures
        t.step(state) == ReloadStep::Idle,
        tick(state, t) == settled(state),
        !tick(state, t).updated_this_frame,
        tick(tick(state, t), t) == tick(state, t),
{
}

/// The same over any number of ticks during which the build output is
/// missing.
pub proof fn missing_build_output_stays_a_no_op(state: ReloadState, ticks: Seq<Tick>)
    requires
        forall|k: int| 0 <= k < ticks.len() ==> (#[trigger] ticks[k]).files.lib_file is None,
    ensures
        quiet(state, ticks),
        reloads(state, ticks) == 0,
        run(state, ticks) == if ticks.len() == 0 {
            state
        } else {
            settled(state)
        },
{
    assert forall|k: int| 0 <= k < ticks.len() implies (#[trigger] ticks[k]).step(state)
        == ReloadStep::Idle by {
        assert(ticks[k].files.lib_file is None);
    }
    idle_ticks_change_nothing(state, ticks);
}

/// Once a handle is held and the working copy is at least as new as the
/// build output, ticks that find the files so never copy, open or reload
/// again.
pub proof fn reconciled_files_are_left_alone(state: ReloadState, ticks: Seq<Tick>)
    requires
        state.loaded,
        forall|k: int| 0 <= k < ticks.len() ==> reconciled((#[trigger] ticks[k]).files),
    ensures
        quiet(state, ticks),
        reloads(state, ticks) == 0,
        run(state, ticks) == if ticks.len() == 0 {
            state
        } else {
            settled(state)
        },
{
    assert forall|k: int| 0 <= k < ticks.len() implies (#[trigger] ticks[k]).step(state)
        == ReloadStep::Idle by {
        assert(reconciled(ticks[k].files));
    }
    idle_ticks_change_nothing(state, ticks);
}

/// A tick that finds the working copy older than the build output, with the
/// cool-down over and reloading on, replaces the copy and opens it; where
/// that succeeds the tick reports a reload.
pub proof fn newer_build_is_reloaded(state: ReloadState, t: Tick)
    requires
        !t.disabled,
        stale(t.files),
        cooled_down(state.last_update_time, t.now),
        t.opened is Some,
    ensures
        t.step(state) == ReloadStep::CopyThenOpen,
        tick(state, t) == (ReloadState {
            loaded: true,
            updated_this_frame: true,
            last_update_time: t.opened->0,
        }),
{
}

/// A newer build is reloaded exactly once: the tick that picks it up reports
/// the reload, and the ticks after it, which find the working copy at least
/// as new as the build output, report none.
pub proof fn newer_build_is_reloaded_once(state: ReloadState, first: Tick, later: Seq<Tick>)
    requires
        !first.disabled,
        stale(first.files),
        cooled_down(state.last_update_time, first.now),
        first.opened is Some,
        forall|k: int| 0 <= k < later.len() ==> reconciled((#[trigger] later[k]).files),
    ensures
        tick(state, first).updated_this_frame,
        reloads(state, seq![first] + later) == 1,
        quiet(tick(state, first), later),
        later.len() > 0 ==> !run(state, seq![first] + later).updated_this_frame,
{
    let ticks = seq![first] + later;
    let next = tick(state, first);
    newer_build_is_reloaded(state, first);
    reconciled_files_are_left_alone(next, later);
    assert(ticks.first() == first);
    assert(ticks.drop_first() =~= later);
}

/// Within the cool-down after a reload, further builds are not picked up:
/// while a handle is held, the working copy exists and the cool-down since
/// the last reload is not over, no tick copies, opens or reloads, however
/// the modification times stand.
pub proof fn builds_within_the_cool_down_wait(state: ReloadState, ticks: Seq<Tick>)
    requires
        state.loaded,
        forall|k: int|
            0 <= k < ticks.len() ==> (#[trigger] ticks[k]).files.hot_in_use_file is Some
                && !cooled_down(state.last_update_time, ticks[k].now),
    ensures
        quiet(state, ticks),
        reloads(state, ticks) == 0,
        run(state, ticks) == if ticks.len() == 0 {
            state
        } else {
            settled(state)
        },
{
    assert forall|k: int| 0 <= k < ticks.len() implies (#[trigger] ticks[k]).step(state)
        == ReloadStep::Idle by {
        assert(ticks[k].files.hot_in_use_file is Some);
        assert(!cooled_down(state.last_update_time, ticks[k].now));
    }
    idle_ticks_change_nothing(state, ticks);
}

/// One cool-down window holds one reload: after the tick that reloads, the
/// ticks whose clock is still within the cool-down of that reload, and which
/// find the working copy in place, report no further reload, also where the
/// build output has been written again in the meantime.
pub proof fn one_reload_per_cool_down(state: ReloadState, first: Tick, later: Seq<Tick>)
    requires
        tick(state, first).updated_this_frame,
        forall|k: int|
            0 <= k < later.len() ==> (#[trigger] later[k]).files.hot_in_use_file is Some
                && !cooled_down(tick(state, first).last_update_time, later[k].now),
    ensures
        reloads(state, seq![first] + later) == 1,
        quiet(tick(state, first), later),
{
    let ticks = seq![first] + later;
    let next = tick(state, first);
    assert(next.loaded);
    builds_within_the_cool_down_wait(next, later);
    assert(ticks.first() == first);
    assert(ticks.drop_first() =~= later);
}

/// While reloading is switched off, no tick copies, opens or reloads, and a
/// controller that holds no handle never comes to hold one: every call keeps
/// going to the local implementation.
pub proof fn disabled_reload_does_nothing(state: ReloadState, ticks: Seq<Tick>)
    requires
        forall|k: int| 0 <= k < ticks.len() ==> (#[trigger] ticks[k]).disabled,
    ensures
        quiet(state, ticks),
        reloads(state, ticks) == 0,
        run(state, ticks).loaded == state.loaded,
        ticks.len() > 0 ==> !run(state, ticks).updated_this_frame,
        !state.loaded ==> route_of(run(state, ticks)) == CallRoute::Local,
{
    assert forall|k: int| 0 <= k < ticks.len() implies (#[trigger] ticks[k]).step(state)
        == ReloadStep::Idle by {
        assert(ticks[k].disabled);
    }
    idle_ticks_change_nothing(state, ticks);
}

/// While reloading is switched off, a library that the host offers all the
/// same is not taken.
pub proof fn disabled_reload_takes_no_library(state: ReloadState, opened: bool, now: u64)
    ensures
        after_open(state, true, opened, now) == state,
{
}

/// The first tick after start that finds a build output and no working copy
/// makes the copy and opens it; where that succeeds the tick reports a
/// reload and a handle is held.
pub proof fn first_build_is_loaded(state: ReloadState, t: Tick)
    requires
        !t.disabled,
        t.files.lib_file is Some,
        t.files.hot_in_use_file is None,
        t.opened is Some,
    ensures
        t.step(state) == ReloadStep::CopyThenOpen,
        tick(state, t).loaded,
        tick(state, t).updated_this_frame,
        tick(state, t).last_update_time == t.opened->0,
{
}

/// Opening that fails leaves the controller without a handle, and the next
/// tick that finds the build output tries again.
pub proof fn failed_open_is_retried(state: ReloadState, t: Tick, next: Tick)
    requires
        t.step(state) != ReloadStep::Idle,
        t.opened is None,
        !next.disabled,
        next.files.lib_file is Some,
    ensures
        !tick(state, t).loaded,
        !tick(state, t).updated_this_frame,
        tick(state, t).last_update_time == state.last_update_time,
        next.step(tick(state, t)) != ReloadStep::Idle,
{
}

} // verus!
