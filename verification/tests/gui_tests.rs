use partstamp::gui::{has_stl_extension, loaded_label_text, AppState};

#[test]
fn plain_stl_name_passes_filter() {
    assert!(has_stl_extension("part.stl"));
}

#[test]
fn stl_name_in_directory_passes_filter() {
    assert!(has_stl_extension("models/part.stl"));
}

#[test]
fn double_extension_passes_filter() {
    assert!(has_stl_extension("part.v2.stl"));
}

#[test]
fn other_extension_fails_filter() {
    assert!(!has_stl_extension("part.txt"));
}

#[test]
fn upper_case_extension_fails_filter() {
    assert!(!has_stl_extension("part.STL"));
}

#[test]
fn bare_dotfile_fails_filter() {
    assert!(!has_stl_extension(".stl"));
    assert!(!has_stl_extension("models/.stl"));
}

#[test]
fn extension_alone_fails_filter() {
    assert!(!has_stl_extension("stl"));
    assert!(!has_stl_extension(""));
}

#[test]
fn fresh_state_shows_no_label() {
    let state = AppState::new();
    assert!(!state.stl_loaded);
    assert!(state.stl_path.is_none());
    assert!(state.display_label().is_none());
}

#[test]
fn default_state_shows_no_label() {
    let state = AppState::default();
    assert!(!state.stl_loaded);
    assert!(state.display_label().is_none());
}

#[test]
fn selecting_stl_file_shows_label() {
    let mut state = AppState::new();
    state.select_file(String::from("cube.stl"));
    assert!(state.stl_loaded);
    assert_eq!(state.stl_path.as_deref(), Some("cube.stl"));
    assert_eq!(state.display_label().unwrap(), "Loaded STL file: cube.stl");
}

#[test]
fn selecting_other_file_changes_nothing() {
    let mut state = AppState::new();
    state.select_file(String::from("notes.txt"));
    assert!(!state.stl_loaded);
    assert!(state.stl_path.is_none());
    assert!(state.display_label().is_none());
}

#[test]
fn selecting_again_replaces_loaded_file() {
    let mut state = AppState::new();
    state.select_file(String::from("first.stl"));
    state.select_file(String::from("second.stl"));
    assert_eq!(state.display_label().unwrap(), "Loaded STL file: second.stl");
}

#[test]
fn label_text_names_the_path() {
    assert_eq!(
        loaded_label_text("models/part.stl"),
        "Loaded STL file: models/part.stl"
    );
}
