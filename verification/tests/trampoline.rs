use libloading::Library;
use ridiculous_bevy_hot_reloading::{
    argument_passing, call_route, exported_symbol_name, is_command_buffer, library_opened,
    missing_symbol_message, CallRoute, HotReload, HotReloadLibInternalUseOnly, LibPathSet,
    Passing, Platform,
};

fn paths() -> LibPathSet {
    LibPathSet::new(None, Some("/work/target/debug/game"), Platform::Unix).unwrap()
}

fn this_process() -> Library {
    Library::from(libloading::os::unix::Library::this())
}

fn type_path(segments: &[&str]) -> Vec<String> {
    segments.iter().map(|s| String::from(*s)).collect()
}

#[test]
fn symbol_name_has_prefix_name_and_hash() {
    assert_eq!(
        exported_symbol_name("rotate", 1234567890123456789),
        "ridiculous_bevy_hot_rotate_1234567890123456789"
    );
    assert_eq!(exported_symbol_name("check_type_ids", 0), "ridiculous_bevy_hot_check_type_ids_0");
    assert_eq!(
        exported_symbol_name("f", u64::MAX),
        "ridiculous_bevy_hot_f_18446744073709551615"
    );
}

#[test]
fn same_name_with_other_signature_gets_other_symbol() {
    assert_ne!(exported_symbol_name("rotate", 1), exported_symbol_name("rotate", 2));
    assert_ne!(exported_symbol_name("rotate", 1), exported_symbol_name("rotate", 10));
    assert_ne!(exported_symbol_name("a_1", 2), exported_symbol_name("a", 12));
}

#[test]
fn calls_go_local_without_a_handle() {
    let state = HotReloadLibInternalUseOnly::new(paths(), 5_000_000_000);
    assert_eq!(call_route(&state), CallRoute::Local);
}

#[test]
fn calls_go_into_the_library_once_loaded() {
    let mut state = HotReloadLibInternalUseOnly::new(paths(), 5_000_000_000);
    let mut status = HotReload::new(5_000_000_000);
    let event = library_opened(&mut state, &mut status, Some(this_process()), 5_000_000_001);
    assert!(event.is_some());
    assert_eq!(call_route(&state), CallRoute::Exported);
}

#[test]
fn missing_symbol_report_names_the_symbol() {
    assert_eq!(
        missing_symbol_message("ridiculous_bevy_hot_rotate_42"),
        "Can't find required function ridiculous_bevy_hot_rotate_42"
    );
}

#[test]
fn command_buffer_is_the_single_segment_commands() {
    assert!(is_command_buffer(&type_path(&["Commands"])));
    assert!(!is_command_buffer(&type_path(&["bevy", "Commands"])));
    assert!(!is_command_buffer(&type_path(&["commands"])));
    assert!(!is_command_buffer(&type_path(&["Query"])));
    assert!(!is_command_buffer(&type_path(&[])));
}

#[test]
fn command_buffer_crosses_by_mutable_reference() {
    let args = vec![
        type_path(&["Commands"]),
        type_path(&["Query"]),
        type_path(&["Res"]),
    ];
    assert_eq!(
        argument_passing(&args),
        vec![Passing::ByMutableReference, Passing::ByValue, Passing::ByValue]
    );
}

#[test]
fn every_command_buffer_crosses_by_mutable_reference() {
    let args = vec![
        type_path(&["Res"]),
        type_path(&["Commands"]),
        type_path(&["bevy", "prelude", "Commands"]),
        type_path(&["Commands"]),
    ];
    assert_eq!(
        argument_passing(&args),
        vec![
            Passing::ByValue,
            Passing::ByMutableReference,
            Passing::ByValue,
            Passing::ByMutableReference
        ]
    );
}

#[test]
fn no_arguments_no_passing() {
    let args: Vec<Vec<String>> = Vec::new();
    assert_eq!(argument_passing(&args), Vec::<Passing>::new());
}
