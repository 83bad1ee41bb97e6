//! Start-up: from the plugin's settings and the path of the running
//! executable to the first status, the controller's first state, and the
//! command line of the build watcher.

use crate::controller::{
    ChildGuard, HotReload, HotReloadLibInternalUseOnly, ReloadState, RELOAD_COOLDOWN_NANOS,
};
use crate::paths::{
    file_name, parent, resolve, split_path, str_text_of, text_of, LibPathSet, LibPathSetView,
    Platform,
};
use vstd::prelude::*;

verus! {

/// The settings of the hot-reload plugin.
#[derive(Clone, Debug)]
pub struct HotReloadPlugin {
    /// Start the build watcher with the plugin.
    pub auto_watch: bool,
    /// Have the watcher build with dynamic linking of the engine.
    pub bevy_dylib: bool,
    /// The name of the library target, without extension. Where it is not
    /// given, the name is `lib_` and the stem of the executable's name.
    pub library_name: Option<String>,
}

impl Default for HotReloadPlugin {
    /// Watcher on, dynamic linking on, library named after the executable.
    fn default() -> (r: HotReloadPlugin)
        ensures
            r.auto_watch,
            r.bevy_dylib,
            r.library_name is None,
    {
        HotReloadPlugin { auto_watch: true, bevy_dylib: true, library_name: None }
    }
}

/// A command line for the host to spawn.
#[derive(Clone, Debug)]
pub struct WatchCommand {
    /// The program to run.
    pub program: String,
    /// Its arguments, in order.
    pub args: Vec<String>,
}

/// Why start-up cannot go on.
#[derive(Clone, Copy, Debug, PartialEq, Eq, Structural)]
pub enum StartupError {
    /// The path of the running executable is unknown or names no file.
    ExecutablePathUnknown,
    /// The folder of the executable has no folder above it to build into.
    TargetDirectoryUnknown,
    /// The build watcher could not be started.
    WatcherNotStarted,
}

impl StartupError {
    /// What the report of this error says.
    pub open spec fn report(self) -> Seq<char> {
        match self {
            StartupError::ExecutablePathUnknown => "could not determine the path of the running executable"@,
            StartupError::TargetDirectoryUnknown => "could not determine the target directory above the folder of the running executable"@,
            StartupError::WatcherNotStarted => "cargo watch command failed, make sure cargo watch is installed"@,
        }
    }

    /// The report to stop start-up with.
    pub fn message(&self) -> (r: String)
        ensures
            r@ == self.report(),
    {
        match self {
            StartupError::ExecutablePathUnknown => String::from_str(
                "could not determine the path of the running executable",
            ),
            StartupError::TargetDirectoryUnknown => String::from_str(
                "could not determine the target directory above the folder of the running executable",
            ),
            StartupError::WatcherNotStarted => String::from_str(
                "cargo watch command failed, make sure cargo watch is installed",
            ),
        }
    }
}

/// What start-up hands to the host.
#[derive(Debug)]
pub struct PluginSetup {
    /// The first status.
    pub hot_reload: HotReload,
    /// The controller's first state; none where reloading is compiled out.
    pub hot_reload_int: Option<HotReloadLibInternalUseOnly>,
    /// The build watcher to spawn, where one is wanted.
    pub watch: Option<WatchCommand>,
}

/// The text of each string of a sequence.
pub open spec fn texts(v: Seq<String>) -> Seq<Seq<char>> {
    v.map_values(|s: String| s@)
}

/// The rebuild command that the watcher runs on every change: a library
/// build into `target_dir`, with the release flag and the dynamic-linking
/// feature where asked for, and with reloading switched on in the library.
pub open spec fn build_command(target_dir: Seq<char>, release_mode: bool, bevy_dylib: bool) -> Seq<
    char,
> {
    "build --lib --target-dir "@ + target_dir + " "@ + (if release_mode {
        "--release"@
    } else {
        ""@
    }) + " "@ + (if bevy_dylib {
        "--features bevy/dynamic_linking"@
    } else {
        ""@
    }) + " --features ridiculous_bevy_hot_reloading/hot_reload"@
}

/// The program that watches the sources.
pub open spec fn watch_program() -> Seq<char> {
    "cargo"@
}

/// The watcher's arguments: watch the folder `src`, wait for the first
/// change, and run `build` on every change.
pub open spec fn watch_arguments(build: Seq<char>) -> Seq<Seq<char>> {
    seq!["watch"@, "--postpone"@, "--watch-when-idle"@, "-w"@, "src"@, "-x"@, build]
}

/// The rebuild command, as text.
pub fn build_command_text(target_dir: &str, release_mode: bool, bevy_dylib: bool) -> (r: String)
    ensures
        r@ == build_command(target_dir@, release_mode, bevy_dylib),
{
    let mut r = String::from_str("build --lib --target-dir ");
    r.append(target_dir);
    r.append(" ");
    r.append(
        if release_mode {
            "--release"
        } else {
            ""
        },
    );
    r.append(" ");
    r.append(
        if bevy_dylib {
            "--features bevy/dynamic_linking"
        } else {
            ""
        },
    );
    r.append(" --features ridiculous_bevy_hot_reloading/hot_reload");
    r
}

/// The command line of the build watcher for a build into `target_dir`.
pub fn watch_command(target_dir: &str, release_mode: bool, bevy_dylib: bool) -> (r: WatchCommand)
    ensures
        r.program@ == watch_program(),
        texts(r.args@) == watch_arguments(build_command(target_dir@, release_mode, bevy_dylib)),
{
    let mut args: Vec<String> = Vec::new();
    args.push(String::from_str("watch"));
    args.push(String::from_str("--postpone"));
    args.push(String::from_str("--watch-when-idle"));
    args.push(String::from_str("-w"));
    args.push(String::from_str("src"));
    args.push(String::from_str("-x"));
    args.push(build_command_text(target_dir, release_mode, bevy_dylib));
    assert(texts(args@) =~= watch_arguments(
        build_command(target_dir@, release_mode, bevy_dylib),
    ));
    WatchCommand { program: String::from_str("cargo"), args }
}

impl PluginSetup {
    /// Whether this is the start of a run that reloads the library at
    /// `paths`: reloading on, no handle and no watcher yet, and a last reload
    /// one cool-down before `now`.
    pub open spec fn starts_reloading(self, paths: LibPathSetView, now: u64) -> bool {
        &&& self.hot_reload == HotReload {
            updated_this_frame: false,
            last_update_time: (now - RELOAD_COOLDOWN_NANOS) as u64,
            disable_reload: false,
        }
        &&& self.hot_reload_int matches Some(state)
        &&& state.library is None
        &&& state.cargo_watch_child is None
        &&& state.library_paths@ == paths
        &&& state@ == ReloadState {
            loaded: false,
            updated_this_frame: false,
            last_update_time: (now - RELOAD_COOLDOWN_NANOS) as u64,
        }
    }

    /// Whether this is the start of a run with reloading compiled out: the
    /// status says so, and there is neither controller nor watcher.
    pub open spec fn starts_without_reloading(self, now: u64) -> bool {
        &&& self.hot_reload == HotReload {
            updated_this_frame: false,
            last_update_time: (now - RELOAD_COOLDOWN_NANOS) as u64,
            disable_reload: true,
        }
        &&& self.hot_reload_int is None
        &&& self.watch is None
    }

    /// Whether the watcher to spawn is the one that builds into `target_dir`.
    pub open spec fn watches(self, target_dir: Seq<char>, release_mode: bool, bevy_dylib: bool)
        -> bool {
        &&& self.watch matches Some(command)
        &&& command.program@ == watch_program()
        &&& texts(command.args@) == watch_arguments(
            build_command(target_dir, release_mode, bevy_dylib),
        )
    }
}

impl HotReloadLibInternalUseOnly {
    /// Takes the outcome of spawning the build watcher. A watcher that
    /// started is supervised from now on; one that did not start ends
    /// start-up, since the tool it needs is missing.
    pub fn supervise(&mut self, spawned: Option<ChildGuard>) -> (r: Result<(), StartupError>)
        ensures
            match spawned {
                Some(child) => r is Ok && final(self).cargo_watch_child == Some(child),
                None => r == Err::<(), StartupError>(StartupError::WatcherNotStarted)
                    && final(self).cargo_watch_child == old(self).cargo_watch_child,
            },
            final(self).library == old(self).library,
            final(self).updated_this_frame == old(self).updated_this_frame,
            final(self).last_update_time == old(self).last_update_time,
            final(self).library_paths == old(self).library_paths,
    {
        match spawned {
            Some(child) => {
                self.cargo_watch_child = Some(child);
                Ok(())
            },
            None => Err(StartupError::WatcherNotStarted),
        }
    }
}

impl HotReloadPlugin {
    /// Prepares a run that starts at `now`.
    ///
    /// With reloading compiled out (`hot_reload_feature` false) the run gets
    /// a status that says so and nothing else. Otherwise the library's paths
    /// are derived from the executable's path; without them start-up fails.
    /// The watcher, where wanted, builds into the folder above the
    /// executable's folder; where there is none, start-up fails.
    pub fn build(
        &self,
        hot_reload_feature: bool,
        release_mode: bool,
        executable: Option<&str>,
        platform: Platform,
        now: u64,
    ) -> (r: Result<PluginSetup, StartupError>)
        requires
            now >= RELOAD_COOLDOWN_NANOS,
        ensures
            !hot_reload_feature ==> r is Ok && r->Ok_0.starts_without_reloading(now),
            hot_reload_feature ==> match resolve(
                text_of(self.library_name),
                str_text_of(executable),
                platform,
            ) {
                None => r == Err::<PluginSetup, StartupError>(StartupError::ExecutablePathUnknown),
                Some(paths) => if self.auto_watch && file_name(platform, paths.folder).len() == 0 {
                    r == Err::<PluginSetup, StartupError>(StartupError::TargetDirectoryUnknown)
                } else {
                    &&& r is Ok
                    &&& r->Ok_0.starts_reloading(paths, now)
                    &&& self.auto_watch ==> r->Ok_0.watches(
                        parent(platform, paths.folder),
                        release_mode,
                        self.bevy_dylib,
                    )
                    &&& !self.auto_watch ==> r->Ok_0.watch is None
                },
            },
    {
        if !hot_reload_feature {
            let status = HotReload {
                updated_this_frame: false,
                last_update_time: now - RELOAD_COOLDOWN_NANOS,
                disable_reload: true,
            };
            return Ok(PluginSetup { hot_reload: status, hot_reload_int: None, watch: None });
        }
        let library_name = match &self.library_name {
            Some(name) => Some(name.clone()),
            None => None,
        };
        let library_paths = match LibPathSet::new(library_name, executable, platform) {
            None => {
                return Err(StartupError::ExecutablePathUnknown);
            },
            Some(paths) => paths,
        };
        let mut watch: Option<WatchCommand> = None;
        if self.auto_watch {
            match split_path(platform, library_paths.folder()) {
                None => {
                    return Err(StartupError::TargetDirectoryUnknown);
                },
                Some((target_dir, _)) => {
                    watch = Some(watch_command(target_dir, release_mode, self.bevy_dylib));
                },
            }
        }
        Ok(
            PluginSetup {
                hot_reload: HotReload::new(now),
                hot_reload_int: Some(HotReloadLibInternalUseOnly::new(library_paths, now)),
                watch,
            },
        )
    }
}

} // verus!
