use ridiculous_bevy_hot_reloading::plugin::{build_command_text, watch_command};
use ridiculous_bevy_hot_reloading::{
    ChildGuard, HotReload, HotReloadPlugin, Platform, StartupError, RELOAD_COOLDOWN_NANOS,
};

const NOW: u64 = 3_000_000_000;

#[test]
fn default_settings() {
    let plugin = HotReloadPlugin::default();
    assert!(plugin.auto_watch);
    assert!(plugin.bevy_dylib);
    assert!(plugin.library_name.is_none());
}

#[test]
fn build_command_for_debug_with_dynamic_linking() {
    assert_eq!(
        build_command_text("/work/target", false, true),
        "build --lib --target-dir /work/target  --features bevy/dynamic_linking --features \
         ridiculous_bevy_hot_reloading/hot_reload"
    );
}

#[test]
fn build_command_for_release_without_dynamic_linking() {
    assert_eq!(
        build_command_text("/work/target", true, false),
        "build --lib --target-dir /work/target --release  --features \
         ridiculous_bevy_hot_reloading/hot_reload"
    );
}

#[test]
fn build_command_with_both_and_with_neither() {
    assert_eq!(
        build_command_text("t", true, true),
        "build --lib --target-dir t --release --features bevy/dynamic_linking --features \
         ridiculous_bevy_hot_reloading/hot_reload"
    );
    assert_eq!(
        build_command_text("t", false, false),
        "build --lib --target-dir t   --features ridiculous_bevy_hot_reloading/hot_reload"
    );
}

#[test]
fn watcher_command_line() {
    let command = watch_command("/work/target", false, true);
    assert_eq!(command.program, "cargo");
    assert_eq!(
        command.args,
        vec![
            "watch",
            "--postpone",
            "--watch-when-idle",
            "-w",
            "src",
            "-x",
            "build --lib --target-dir /work/target  --features bevy/dynamic_linking --features \
             ridiculous_bevy_hot_reloading/hot_reload",
        ]
    );
}

#[test]
fn start_with_watcher() {
    let plugin = HotReloadPlugin::default();
    let setup = plugin
        .build(true, false, Some("/work/target/debug/game"), Platform::Unix, NOW)
        .unwrap();
    assert_eq!(
        setup.hot_reload,
        HotReload {
            updated_this_frame: false,
            last_update_time: NOW - RELOAD_COOLDOWN_NANOS,
            disable_reload: false
        }
    );
    let state = setup.hot_reload_int.unwrap();
    assert!(state.library.is_none());
    assert!(state.cargo_watch_child.is_none());
    assert!(!state.updated_this_frame);
    assert_eq!(state.last_update_time, NOW - RELOAD_COOLDOWN_NANOS);
    assert_eq!(state.library_paths.lib_file_path(), "/work/target/debug/lib_game.so");
    let watch = setup.watch.unwrap();
    assert_eq!(watch.program, "cargo");
    assert_eq!(watch.args.len(), 7);
    assert_eq!(
        watch.args[6],
        "build --lib --target-dir /work/target  --features bevy/dynamic_linking --features \
         ridiculous_bevy_hot_reloading/hot_reload"
    );
}

#[test]
fn start_in_release_mode_with_named_library() {
    let plugin = HotReloadPlugin {
        auto_watch: true,
        bevy_dylib: false,
        library_name: Some(String::from("lib_custom")),
    };
    let setup = plugin
        .build(true, true, Some("C:\\work\\target\\release\\game.exe"), Platform::Windows, NOW)
        .unwrap();
    let state = setup.hot_reload_int.unwrap();
    assert_eq!(
        state.library_paths.hot_in_use_file_path(),
        "C:\\work\\target\\release\\lib_custom_hot_in_use.dll"
    );
    assert_eq!(
        setup.watch.unwrap().args[6],
        "build --lib --target-dir C:\\work\\target --release  --features \
         ridiculous_bevy_hot_reloading/hot_reload"
    );
}

#[test]
fn start_without_watcher() {
    let plugin = HotReloadPlugin { auto_watch: false, bevy_dylib: true, library_name: None };
    let setup = plugin.build(true, false, Some("/game"), Platform::Unix, NOW).unwrap();
    assert!(setup.watch.is_none());
    assert!(setup.hot_reload_int.is_some());
    assert!(!setup.hot_reload.disable_reload);
}

#[test]
fn start_with_reloading_compiled_out() {
    let plugin = HotReloadPlugin::default();
    let setup = plugin.build(false, false, None, Platform::Unix, NOW).unwrap();
    assert_eq!(
        setup.hot_reload,
        HotReload {
            updated_this_frame: false,
            last_update_time: NOW - RELOAD_COOLDOWN_NANOS,
            disable_reload: true
        }
    );
    assert!(setup.hot_reload_int.is_none());
    assert!(setup.watch.is_none());
}

#[test]
fn start_fails_without_executable_path() {
    let plugin = HotReloadPlugin::default();
    assert_eq!(
        plugin.build(true, false, None, Platform::Unix, NOW).unwrap_err(),
        StartupError::ExecutablePathUnknown
    );
    assert_eq!(
        plugin.build(true, false, Some("/usr/bin/"), Platform::Unix, NOW).unwrap_err(),
        StartupError::ExecutablePathUnknown
    );
}

#[test]
fn start_fails_where_watcher_has_no_folder_to_build_into() {
    let plugin = HotReloadPlugin::default();
    assert_eq!(
        plugin.build(true, false, Some("/game"), Platform::Unix, NOW).unwrap_err(),
        StartupError::TargetDirectoryUnknown
    );
    assert_eq!(
        plugin.build(true, false, Some("game"), Platform::Unix, NOW).unwrap_err(),
        StartupError::TargetDirectoryUnknown
    );
}

#[test]
fn watcher_builds_into_folder_above_a_relative_folder() {
    let plugin = HotReloadPlugin::default();
    let setup = plugin.build(true, false, Some("debug/game"), Platform::Unix, NOW).unwrap();
    assert_eq!(
        setup.watch.unwrap().args[6],
        "build --lib --target-dir   --features bevy/dynamic_linking --features \
         ridiculous_bevy_hot_reloading/hot_reload"
    );
}

#[test]
fn start_at_the_earliest_clock_reading() {
    let plugin = HotReloadPlugin::default();
    let setup = plugin
        .build(true, false, Some("/w/t/d/game"), Platform::Unix, RELOAD_COOLDOWN_NANOS)
        .unwrap();
    assert_eq!(setup.hot_reload.last_update_time, 0);
    assert_eq!(setup.hot_reload_int.unwrap().last_update_time, 0);
}

#[test]
fn started_watcher_is_supervised() {
    let plugin = HotReloadPlugin::default();
    let setup = plugin.build(true, false, Some("/w/t/d/game"), Platform::Unix, NOW).unwrap();
    let mut state = setup.hot_reload_int.unwrap();
    assert_eq!(state.supervise(Some(ChildGuard(77))), Ok(()));
    assert_eq!(state.cargo_watch_child, Some(ChildGuard(77)));
    assert!(state.library.is_none());
}

#[test]
fn watcher_that_did_not_start_ends_start_up() {
    let plugin = HotReloadPlugin::default();
    let setup = plugin.build(true, false, Some("/w/t/d/game"), Platform::Unix, NOW).unwrap();
    let mut state = setup.hot_reload_int.unwrap();
    assert_eq!(state.supervise(None), Err(StartupError::WatcherNotStarted));
    assert!(state.cargo_watch_child.is_none());
}

#[test]
fn start_up_reports() {
    assert_eq!(
        StartupError::ExecutablePathUnknown.message(),
        "could not determine the path of the running executable"
    );
    assert_eq!(
        StartupError::TargetDirectoryUnknown.message(),
        "could not determine the target directory above the folder of the running executable"
    );
    assert_eq!(
        StartupError::WatcherNotStarted.message(),
        "cargo watch command failed, make sure cargo watch is installed"
    );
}
