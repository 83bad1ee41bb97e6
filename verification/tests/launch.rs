use ridiculous_bevy_hot_reloading::{dyn_load_main, LaunchNext, LaunchPlan, LaunchStage, Platform};

fn plan() -> LaunchPlan {
    dyn_load_main("main", None, Some("/work/target/debug/game"), Platform::Unix).unwrap()
}

fn report(next: LaunchNext) -> String {
    match next {
        LaunchNext::Fail(report) => report,
        other => panic!("no report: {:?}", other),
    }
}

#[test]
fn launch_plan_names_both_files_and_the_entry_point() {
    let plan = plan();
    assert_eq!(plan.lib_file, "/work/target/debug/lib_game.so");
    assert_eq!(plan.main_in_use_file, "/work/target/debug/lib_game_main_in_use.so");
    assert_eq!(plan.main_function_name, "main");
}

#[test]
fn launch_plan_with_named_library() {
    let plan = dyn_load_main(
        "start",
        Some(String::from("lib_engine")),
        Some("C:\\g\\game.exe"),
        Platform::Windows,
    )
    .unwrap();
    assert_eq!(plan.lib_file, "C:\\g\\lib_engine.dll");
    assert_eq!(plan.main_in_use_file, "C:\\g\\lib_engine_main_in_use.dll");
    assert_eq!(plan.main_function_name, "start");
}

#[test]
fn no_launch_without_executable_path() {
    assert!(dyn_load_main("main", None, None, Platform::Unix).is_none());
    assert!(dyn_load_main("main", None, Some("/usr/bin/"), Platform::Unix).is_none());
}

#[test]
fn launch_proceeds_stage_by_stage_to_the_call() {
    let plan = plan();
    assert!(matches!(plan.after(LaunchStage::FindLibrary, true), LaunchNext::Proceed));
    assert!(matches!(plan.after(LaunchStage::CopyLibrary, true), LaunchNext::Proceed));
    assert!(matches!(plan.after(LaunchStage::OpenLibrary, true), LaunchNext::Proceed));
    assert!(matches!(plan.after(LaunchStage::ResolveMain, true), LaunchNext::Call));
}

#[test]
fn launch_fails_on_missing_build_output() {
    assert_eq!(
        report(plan().after(LaunchStage::FindLibrary, false)),
        "Could not find library file /work/target/debug/lib_game.so"
    );
}

#[test]
fn launch_fails_on_failed_copy() {
    assert_eq!(
        report(plan().after(LaunchStage::CopyLibrary, false)),
        "Could not copy library file /work/target/debug/lib_game.so"
    );
}

#[test]
fn launch_ends_silently_when_the_copy_does_not_open() {
    assert!(matches!(plan().after(LaunchStage::OpenLibrary, false), LaunchNext::Return));
}

#[test]
fn launch_fails_on_missing_entry_point() {
    assert_eq!(
        report(plan().after(LaunchStage::ResolveMain, false)),
        "Can't find required function main"
    );
}
