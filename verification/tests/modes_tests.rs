use ascope::app::modes::{BackStep, OpenStep};
use ascope::app::{AppState, ModalMode, SearchOverlayMode};
use ascope::config::session::SessionConfig;
use ascope::config::Config;
use ascope::fs::walker::{DirEntry, EntryType};

fn entry(path: &str, size: u64, kind: EntryType) -> DirEntry {
    DirEntry {
        path: path.to_string(),
        size,
        entry_type: kind,
        mtime: 0,
        display_path: path.to_string(),
        symlink_target: None,
    }
}

fn state_at(root: &str) -> AppState {
    AppState::new(
        root.to_string(),
        vec![
            entry(&format!("{root}/big"), 300, EntryType::File),
            entry(&format!("{root}/dir"), 200, EntryType::Directory),
            entry(&format!("{root}/small.rs"), 10, EntryType::File),
        ],
        None,
        Config::new(),
        vec![],
    )
}

#[test]
fn list_modals_open_on_their_first_row() {
    let mut state = state_at("/w");
    state.modal_selected_index = 4;
    state.modal_input = "12".to_string();
    state.open_list_modal(ModalMode::Recent);
    assert_eq!(state.modal_mode, ModalMode::Recent);
    assert_eq!(state.modal_selected_index, 0);
    assert!(state.modal_input.is_empty());
}

#[test]
fn search_overlay_opens_on_every_file() {
    let mut state = state_at("/w");
    state.search_overlay_input = "old".to_string();
    state.open_search_overlay(SearchOverlayMode::LiveGrep);
    assert_eq!(state.modal_mode, ModalMode::SearchOverlay);
    assert_eq!(state.search_overlay_mode, SearchOverlayMode::LiveGrep);
    assert!(state.search_overlay_input.is_empty());
    assert_eq!(state.search_overlay_results.len(), 2);
}

#[test]
fn palette_opens_with_every_command() {
    let mut state = state_at("/w");
    state.open_command_palette(vec![], &SessionConfig::default());
    assert_eq!(state.modal_mode, ModalMode::CommandPalette);
    assert_eq!(state.command_palette_results.len(), 1);
    assert_eq!(state.command_palette_results[0].cmd, "reload_plugins");
    assert!(state.command_palette_focused);
}

#[test]
fn help_opens_on_its_first_row() {
    let mut state = state_at("/w");
    state.help_selected_index = 3;
    state.open_help();
    assert!(state.show_help);
    assert_eq!(state.help_selected_index, 0);
}

#[test]
fn going_back_clears_a_query_first() {
    let mut state = state_at("/w");
    state.push_search_char('b');
    assert_eq!(state.go_back(), BackStep::ClearedQuery);
    assert_eq!(state.navigation.filter_query(), None);
    assert_eq!(state.go_back(), BackStep::Parent("/".to_string()));
    let mut root = state_at("");
    let _ = root.jump_to_path("/".to_string(), vec![], None);
    assert_eq!(root.go_back(), BackStep::Stay);
}

#[test]
fn opening_edits_files_and_enters_directories() {
    let mut state = state_at("/w");
    assert_eq!(state.open_selected(), OpenStep::Edit { path: "/w/big".to_string(), search: None });
    state.move_selection(1);
    assert_eq!(state.open_selected(), OpenStep::Directory("/w/dir".to_string()));
    state.push_search_char('s');
    state.push_search_char('m');
    match state.open_selected() {
        OpenStep::Edit { path, search } => {
            assert_eq!(path, "/w/small.rs");
            assert_eq!(search.as_deref(), Some("sm"));
        }
        other => panic!("unexpected {:?}", other),
    }
}

#[test]
fn plugin_navigation_selects_a_named_file() {
    let mut state = state_at("/w");
    assert_eq!(state.plugin_navigation("small.rs", true), Some(("/w".to_string(), Some("small.rs".to_string()))));
    assert_eq!(state.plugin_navigation("/x/y.txt", true), Some(("/x".to_string(), Some("y.txt".to_string()))));
    assert_eq!(state.plugin_navigation("sub", false), Some(("sub".to_string(), None)));
    state.select_named("small.rs");
    assert_eq!(state.navigation.cursor(), 2);
    state.select_named("missing");
    assert_eq!(state.navigation.cursor(), 2);
}
