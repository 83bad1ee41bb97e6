//! The reload controller: the state that one tick reads and changes, the
//! decision a tick takes from what the host observed, and what becomes of the
//! state once the host reports whether the library opened.
//!
//! A tick runs in two calls. `update_lib` takes the modification times of the
//! build output and of the working copy, lets go of a handle that is about to
//! be replaced, and answers with the step the host has to perform. Where that
//! step opens a library, the host hands the outcome to `library_opened`.

use crate::paths::LibPathSet;
use libloading::Library;
use vstd::prelude::*;

verus! {

/// `libloading::Library`: a dynamic library that the host has opened.
/// Declared without its contents, and nothing is claimed of them: the
/// controller only holds such a value, hands it back, or lets it go, which
/// closes the library.
#[verifier::external_type_specification]
#[verifier::external_body]
pub struct ExLibrary(libloading::Library);

/// Shortest time, in nanoseconds, between a reload and the next replacement
/// of a stale working copy.
pub const RELOAD_COOLDOWN_NANOS: u64 = 1_000_000_000;

/// What callers may know about the reload state. A snapshot: it holds for the
/// tick in which it was published.
#[derive(Clone, Copy, Debug, PartialEq, Eq, Structural)]
pub struct HotReload {
    /// Whether the library was (re)loaded in this tick.
    pub updated_this_frame: bool,
    /// Clock reading, in nanoseconds, of the last reload.
    pub last_update_time: u64,
    /// Set by the application to switch reloading off.
    pub disable_reload: bool,
}

/// Notice that the library was reloaded.
#[derive(Clone, Copy, Debug, PartialEq, Eq, Structural)]
pub struct HotReloadEvent {
    /// Clock reading, in nanoseconds, of that reload.
    pub last_update_time: u64,
}

/// Stands for the build-watch process that the host started: its process id.
/// The host keeps the process itself and ends it when a teardown step names
/// this guard.
#[derive(Clone, Copy, Debug, PartialEq, Eq, Structural)]
pub struct ChildGuard(pub u32);

/// Modification times, in nanoseconds, of the two files a tick looks at.
/// `None` where the path is not a regular file.
#[derive(Clone, Copy, Debug)]
pub struct ArtifactTimes {
    /// The file the build tool writes.
    pub lib_file: Option<u64>,
    /// The working copy that the process opens.
    pub hot_in_use_file: Option<u64>,
}

/// One thing the host has to do when the run ends.
#[derive(Debug)]
pub enum TeardownStep {
    /// End the build-watch process.
    TerminateWatcher(ChildGuard),
    /// Close the library by letting go of the handle.
    ReleaseLibrary(Library),
}

/// The steps that end a run which supervises `child` and holds `library`:
/// the watcher is ended first, the library released after it.
pub open spec fn teardown(child: Option<ChildGuard>, library: Option<Library>) -> Seq<
    TeardownStep,
> {
    (match child {
        Some(child) => seq![TeardownStep::TerminateWatcher(child)],
        None => Seq::<TeardownStep>::empty(),
    }) + (match library {
        Some(library) => seq![TeardownStep::ReleaseLibrary(library)],
        None => Seq::<TeardownStep>::empty(),
    })
}

/// What the host has to do after the controller looked at a tick.
#[derive(Clone, Copy, Debug, PartialEq, Eq, Structural)]
pub enum ReloadStep {
    /// Nothing: the tick is over.
    Idle,
    /// Open the working copy and report the outcome.
    Open,
    /// Copy the build output over the working copy; whether or not the copy
    /// succeeds, open the working copy and report the outcome.
    CopyThenOpen,
}

/// The controller's own state. Only for internal use; public because the
/// call stubs read `library`.
#[derive(Debug)]
pub struct HotReloadLibInternalUseOnly {
    /// The handle that calls are routed through, while one is held.
    pub library: Option<Library>,
    /// Whether the library was (re)loaded in this tick.
    pub updated_this_frame: bool,
    /// Clock reading, in nanoseconds, of the last reload.
    pub last_update_time: u64,
    /// The build-watch process, while one is supervised.
    pub cargo_watch_child: Option<ChildGuard>,
    /// Where the artifact and its copies live.
    pub library_paths: LibPathSet,
}

/// What a tick reads of the controller's state.
pub struct ReloadState {
    /// Whether a handle is held.
    pub loaded: bool,
    /// Whether the library was (re)loaded in the last tick.
    pub updated_this_frame: bool,
    /// Clock reading of the last reload.
    pub last_update_time: u64,
}

impl View for HotReloadLibInternalUseOnly {
    type V = ReloadState;

    open spec fn view(&self) -> ReloadState {
        ReloadState {
            loaded: self.library is Some,
            updated_this_frame: self.updated_this_frame,
            last_update_time: self.last_update_time,
        }
    }
}

/// Whether the cool-down since the reload at `last_update_time` is over at
/// `now`. A clock that reads earlier than the reload has not cooled down.
pub open spec fn cooled_down(last_update_time: u64, now: u64) -> bool {
    now - last_update_time >= RELOAD_COOLDOWN_NANOS
}

/// Whether the working copy exists and is older than the build output.
pub open spec fn stale(files: ArtifactTimes) -> bool {
    files.lib_file is Some && files.hot_in_use_file is Some && files.hot_in_use_file->0
        < files.lib_file->0
}

/// The step a tick decides on.
///
/// Nothing happens while reloading is switched off or the build output is
/// missing. A missing working copy is always made. A stale one is replaced
/// once the cool-down is over. Whenever no handle is held after that, the
/// working copy is opened.
pub open spec fn plan(state: ReloadState, disabled: bool, files: ArtifactTimes, now: u64)
    -> ReloadStep {
    if disabled || files.lib_file is None {
        ReloadStep::Idle
    } else if files.hot_in_use_file is None {
        ReloadStep::CopyThenOpen
    } else if stale(files) && cooled_down(state.last_update_time, now) {
        ReloadStep::CopyThenOpen
    } else if !state.loaded {
        ReloadStep::Open
    } else {
        ReloadStep::Idle
    }
}

/// The state after a tick decided on `step`: the flag is cleared, and a
/// handle that is about to be replaced is no longer held.
pub open spec fn after_plan(state: ReloadState, step: ReloadStep) -> ReloadState {
    ReloadState {
        loaded: state.loaded && step != ReloadStep::CopyThenOpen,
        updated_this_frame: false,
        last_update_time: state.last_update_time,
    }
}

/// Whether a library that the host offers at this point is taken: there is
/// one, none is held, and reloading is not switched off.
pub open spec fn accepts(state: ReloadState, disabled: bool, opened: bool) -> bool {
    opened && !state.loaded && !disabled
}

/// The state after the host reported the outcome of opening at `now`.
pub open spec fn after_open(state: ReloadState, disabled: bool, opened: bool, now: u64)
    -> ReloadState {
    if accepts(state, disabled, opened) {
        ReloadState { loaded: true, updated_this_frame: true, last_update_time: now }
    } else {
        state
    }
}

/// What is published of `state` while `disabled` holds the switch.
pub open spec fn published(state: ReloadState, disabled: bool) -> HotReload {
    HotReload {
        updated_this_frame: state.updated_this_frame,
        last_update_time: state.last_update_time,
        disable_reload: disabled,
    }
}

/// What one tick meets: the switch, the observed files, the clock, and, for
/// a tick that opens the working copy, the clock reading at which the library
/// opened (`None` where opening failed).
pub struct Tick {
    pub disabled: bool,
    pub files: ArtifactTimes,
    pub now: u64,
    pub opened: Option<u64>,
}

impl Tick {
    /// The step this tick decides on in `state`.
    pub open spec fn step(self, state: ReloadState) -> ReloadStep {
        plan(state, self.disabled, self.files, self.now)
    }
}

/// The state after a whole tick: `update_lib`, and `library_opened` where the
/// step opens the working copy.
pub open spec fn tick(state: ReloadState, t: Tick) -> ReloadState {
    let step = t.step(state);
    let planned = after_plan(state, step);
    if step == ReloadStep::Idle {
        planned
    } else {
        after_open(planned, t.disabled, t.opened is Some, t.opened.unwrap_or(0))
    }
}

/// The state after the ticks of `ticks`, in order.
pub open spec fn run(state: ReloadState, ticks: Seq<Tick>) -> ReloadState
    decreases ticks.len(),
{
    if ticks.len() == 0 {
        state
    } else {
        run(tick(state, ticks.first()), ticks.drop_first())
    }
}

/// How many of the ticks of `ticks` reload the library.
pub open spec fn reloads(state: ReloadState, ticks: Seq<Tick>) -> nat
    decreases ticks.len(),
{
    if ticks.len() == 0 {
        0
    } else {
        let next = tick(state, ticks.first());
        (if next.updated_this_frame {
            1nat
        } else {
            0nat
        }) + reloads(next, ticks.drop_first())
    }
}

/// Whether no tick of `ticks` asks the host for anything: no copy, no open.
pub open spec fn quiet(state: ReloadState, ticks: Seq<Tick>) -> bool
    decreases ticks.len(),
{
    ticks.len() == 0 || (ticks.first().step(state) == ReloadStep::Idle && quiet(
        tick(state, ticks.first()),
        ticks.drop_first(),
    ))
}

impl HotReload {
    /// The status before the first tick: nothing reloaded, reloading on, and
    /// a last reload one cool-down before `now`, so that the first stale
    /// working copy is replaced at once.
    pub fn new(now: u64) -> (r: HotReload)
        requires
            now >= RELOAD_COOLDOWN_NANOS,
        ensures
            r == (HotReload {
                updated_this_frame: false,
                last_update_time: (now - RELOAD_COOLDOWN_NANOS) as u64,
                disable_reload: false,
            }),
            cooled_down(r.last_update_time, now),
    {
        HotReload {
            updated_this_frame: false,
            last_update_time: now - RELOAD_COOLDOWN_NANOS,
            disable_reload: false,
        }
    }
}

impl HotReloadLibInternalUseOnly {
    /// The state before the first tick: no handle, no watcher, and a last
    /// reload one cool-down before `now`.
    pub fn new(library_paths: LibPathSet, now: u64) -> (r: HotReloadLibInternalUseOnly)
        requires
            now >= RELOAD_COOLDOWN_NANOS,
        ensures
            r.library is None,
            r.cargo_watch_child is None,
            r.library_paths == library_paths,
            r@ == (ReloadState {
                loaded: false,
                updated_this_frame: false,
                last_update_time: (now - RELOAD_COOLDOWN_NANOS) as u64,
            }),
    {
        HotReloadLibInternalUseOnly {
            library: None,
            updated_this_frame: false,
            last_update_time: now - RELOAD_COOLDOWN_NANOS,
            cargo_watch_child: None,
            library_paths,
        }
    }
}

/// Whether at least the cool-down lies between the reload at
/// `last_update_time` and `now`.
pub fn has_cooled_down(last_update_time: u64, now: u64) -> (r: bool)
    ensures
        r == cooled_down(last_update_time, now),
{
    now >= last_update_time && now - last_update_time >= RELOAD_COOLDOWN_NANOS
}

/// Whether the working copy exists and is older than the build output.
pub fn is_stale(files: &ArtifactTimes) -> (r: bool)
    ensures
        r == stale(*files),
{
    match (files.lib_file, files.hot_in_use_file) {
        (Some(built), Some(in_use)) => in_use < built,
        _ => false,
    }
}

/// First half of a tick: decides from the observed files what the host has
/// to do.
///
/// The flag of the previous tick is cleared. Where the working copy is about
/// to be written, the handle is let go first, so that the file is not open
/// while it is overwritten. Unless reloading is switched off, the status is
/// published; it is final for this tick when the step is `Idle`.
pub fn update_lib(
    hot_reload_int: &mut HotReloadLibInternalUseOnly,
    hot_reload: &mut HotReload,
    files: ArtifactTimes,
    now: u64,
) -> (step: ReloadStep)
    ensures
        step == plan(old(hot_reload_int)@, old(hot_reload).disable_reload, files, now),
        final(hot_reload_int)@ == after_plan(old(hot_reload_int)@, step),
        final(hot_reload_int).library == if step == ReloadStep::CopyThenOpen {
            None
        } else {
            old(hot_reload_int).library
        },
        final(hot_reload_int).cargo_watch_child == old(hot_reload_int).cargo_watch_child,
        final(hot_reload_int).library_paths == old(hot_reload_int).library_paths,
        *final(hot_reload) == if old(hot_reload).disable_reload {
            HotReload { updated_this_frame: false, ..*old(hot_reload) }
        } else {
            published(final(hot_reload_int)@, false)
        },
{
    hot_reload_int.updated_this_frame = false;
    hot_reload.updated_this_frame = false;
    if hot_reload.disable_reload {
        return ReloadStep::Idle;
    }
    let mut step = ReloadStep::Idle;
    if files.lib_file.is_some() {
        if files.hot_in_use_file.is_none() || (is_stale(&files) && has_cooled_down(
            hot_reload_int.last_update_time,
            now,
        )) {
            hot_reload_int.library = None;
            step = ReloadStep::CopyThenOpen;
        } else if hot_reload_int.library.is_none() {
            step = ReloadStep::Open;
        }
    }
    hot_reload.last_update_time = hot_reload_int.last_update_time;
    step
}

/// Second half of a tick: takes the outcome of the step that opened the
/// working copy at `now`.
///
/// A library is taken when none is held and reloading is not switched off:
/// it becomes the handle, the tick counts as a reload at `now`, and the
/// notice to send is returned. In every other case nothing changes and an
/// offered library is let go. A failed open leaves the controller without a
/// handle, and the next tick tries again.
pub fn library_opened(
    hot_reload_int: &mut HotReloadLibInternalUseOnly,
    hot_reload: &mut HotReload,
    opened: Option<Library>,
    now: u64,
) -> (event: Option<HotReloadEvent>)
    ensures
        final(hot_reload_int)@ == after_open(
            old(hot_reload_int)@,
            old(hot_reload).disable_reload,
            opened is Some,
            now,
        ),
        final(hot_reload_int).library == if accepts(
            old(hot_reload_int)@,
            old(hot_reload).disable_reload,
            opened is Some,
        ) {
            opened
        } else {
            old(hot_reload_int).library
        },
        final(hot_reload_int).cargo_watch_child == old(hot_reload_int).cargo_watch_child,
        final(hot_reload_int).library_paths == old(hot_reload_int).library_paths,
        event == if accepts(old(hot_reload_int)@, old(hot_reload).disable_reload, opened is Some) {
            Some(HotReloadEvent { last_update_time: now })
        } else {
            None
        },
        *final(hot_reload) == if accepts(
            old(hot_reload_int)@,
            old(hot_reload).disable_reload,
            opened is Some,
        ) {
            published(final(hot_reload_int)@, false)
        } else {
            *old(hot_reload)
        },
{
    if hot_reload.disable_reload || hot_reload_int.library.is_some() {
        return None;
    }
    match opened {
        None => None,
        Some(library) => {
            hot_reload_int.library = Some(library);
            hot_reload_int.updated_this_frame = true;
            hot_reload_int.last_update_time = now;
            hot_reload.updated_this_frame = true;
            hot_reload.last_update_time = now;
            Some(HotReloadEvent { last_update_time: now })
        },
    }
}

impl HotReloadLibInternalUseOnly {
    /// Ends the run: hands out, in the order in which the host performs
    /// them, the steps that end the watcher and release the library. The
    /// controller keeps neither, so that a second call hands out nothing and
    /// each step happens once.
    pub fn shutdown(&mut self) -> (steps: Vec<TeardownStep>)
        ensures
            steps@ == teardown(old(self).cargo_watch_child, old(self).library),
            final(self).library is None,
            final(self).cargo_watch_child is None,
            final(self).updated_this_frame == old(self).updated_this_frame,
            final(self).last_update_time == old(self).last_update_time,
            final(self).library_paths == old(self).library_paths,
    {
        let mut steps: Vec<TeardownStep> = Vec::new();
        match self.cargo_watch_child.take() {
            Some(child) => {
                steps.push(TeardownStep::TerminateWatcher(child));
            },
            None => {},
        }
        match self.library.take() {
            Some(library) => {
                steps.push(TeardownStep::ReleaseLibrary(library));
            },
            None => {},
        }
        assert(steps@ =~= teardown(old(self).cargo_watch_child, old(self).library));
        steps
    }
}

} // verus!
