//! Decision core of a hot-reload runtime: where the rebuilt library lives,
//! when a newer build is picked up, which handle in-flight calls go through,
//! and how a call is routed between the loaded library and its local
//! fallback.
//!
//! The host observes files, copies them, opens the library and ends the
//! build watcher; what it finds, it reports here, and what it has to do
//! next, it is told here.

pub mod text;
pub mod paths;
pub mod controller;
pub mod identity;
pub mod launch;
pub mod plugin;
pub mod trampoline;
pub mod laws;

pub use controller::{
    library_opened, update_lib, ArtifactTimes, ChildGuard, HotReload, HotReloadEvent,
    HotReloadLibInternalUseOnly, ReloadStep, TeardownStep, RELOAD_COOLDOWN_NANOS,
};
pub use identity::{check_type_ids, identity_check_due, TypeIdMismatch};
pub use launch::{dyn_load_main, LaunchNext, LaunchPlan, LaunchStage};
pub use paths::{LibPathSet, Platform};
pub use plugin::{HotReloadPlugin, PluginSetup, StartupError, WatchCommand};
pub use trampoline::{
    argument_passing, call_route, exported_symbol_name, is_command_buffer,
    missing_symbol_message, CallRoute, Passing,
};
