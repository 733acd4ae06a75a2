use ascope::app::AppState;
use ascope::config::Config;
use ascope::fs::walker::{DirEntry, EntryType};

fn entry(path: &str, display: &str, is_dir: bool) -> DirEntry {
    DirEntry {
        path: path.to_string(),
        size: if is_dir { u64::MAX } else { 0 },
        entry_type: if is_dir { EntryType::Directory } else { EntryType::File },
        mtime: 0,
        display_path: display.to_string(),
        symlink_target: None,
    }
}

/// A workspace with `Cargo.toml` and `src/`, whose `src/` is expanded and
/// lists `main.rs` and `app.rs`.
fn expanded_workspace() -> AppState {
    let mut state = AppState::new(
        "/t".to_string(),
        vec![entry("/t/Cargo.toml", "Cargo.toml", false), entry("/t/src", "src", true)],
        None,
        Config::new(),
        vec![],
    );
    state.navigation.select_path("/t/src");
    let load = state.toggle_expand();
    assert_eq!(load.as_deref(), Some("/t/src"));
    state.add_entries(vec![entry("/t/src/main.rs", "main.rs", false), entry("/t/src/app.rs", "app.rs", false)]);
    state
}

#[test]
fn test_live_filter_items() {
    let mut state = expanded_workspace();
    state.navigation.set_filter(Some(String::from("main")), &state.all_entries);
    let filtered = state.visible_items();
    assert_eq!(filtered.len(), 1);
    assert!(filtered[0].0.path.ends_with("src/main.rs"));
}

#[test]
fn test_visible_items_uses_search_query() {
    let mut state = expanded_workspace();
    state.navigation.set_filter(Some(String::from("app")), &state.all_entries);
    let visible = state.visible_items();
    assert_eq!(visible.len(), 1);
    assert!(visible[0].0.path.ends_with("src/app.rs"));
}

#[test]
fn test_filter_query_matches_nested_files() {
    let mut state = expanded_workspace();
    state.navigation.set_filter(Some(String::from("main.rs")), &state.all_entries);
    let filtered = state.visible_items();
    assert_eq!(filtered.len(), 1);
    assert_eq!(filtered[0].0.path, "/t/src/main.rs");
}

fn two_files() -> AppState {
    AppState::new(
        "/t".to_string(),
        vec![entry("/t/main.rs", "main.rs", false), entry("/t/Cargo.toml", "Cargo.toml", false)],
        None,
        Config::new(),
        vec![],
    )
}

#[test]
fn test_fuzzy_matches_transpositions() {
    let mut state = two_files();
    state.navigation.set_filter(Some(String::from("mrs")), &state.all_entries);
    let matches_mrs = state.visible_items();
    assert_eq!(matches_mrs.len(), 1);
    assert_eq!(matches_mrs[0].0.path, "/t/main.rs");
    state.navigation.set_filter(Some(String::from("crgo")), &state.all_entries);
    let matches_crgo = state.visible_items();
    assert_eq!(matches_crgo.len(), 1);
    assert_eq!(matches_crgo[0].0.path, "/t/Cargo.toml");
}

#[test]
fn test_empty_query_returns_all() {
    let mut state = two_files();
    state.navigation.set_filter(None, &state.all_entries);
    assert_eq!(state.visible_items().len(), 2);
}

#[test]
fn test_no_match_returns_empty() {
    let mut state = two_files();
    state.navigation.set_filter(Some(String::from("nonexistent")), &state.all_entries);
    assert!(state.visible_items().is_empty());
}
