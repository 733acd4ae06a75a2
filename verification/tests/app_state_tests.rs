use ascope::app::dashboard::{FolderDashboardSummary, ListingEntry, ListingKind};
use ascope::app::{AppState, ModalMode, PreviewType, SortMode};
use ascope::config::Config;
use ascope::fs::walker::{DirEntry, EntryType};
use ascope::project::detector::DetectedCommand;

fn entry(path: &str, size: u64, is_dir: bool, mtime: i128) -> DirEntry {
    DirEntry {
        path: path.to_string(),
        size,
        entry_type: if is_dir { EntryType::Directory } else { EntryType::File },
        mtime,
        display_path: path.to_string(),
        symlink_target: None,
    }
}

fn state_at(root: &str, entries: Vec<DirEntry>) -> AppState {
    AppState::new(root.to_string(), entries, None, Config::new(), vec![])
}

fn three_dirs() -> AppState {
    state_at(
        "/w",
        vec![
            entry("/w/alpha", 7, true, 0),
            entry("/w/beta", 7, true, 0),
            entry("/w/gamma", 7, true, 0),
        ],
    )
}

#[test]
fn test_new_state_has_items() {
    let state = three_dirs();
    assert_eq!(state.navigation.visible_items().len(), 3);
    assert_eq!(state.navigation.cursor(), 0);
}

#[test]
fn test_move_selection_wraps_forward() {
    let mut state = three_dirs();
    state.navigation.set_cursor(2);
    state.move_selection(1);
    assert_eq!(state.navigation.cursor(), 0);
}

#[test]
fn test_move_selection_wraps_backward() {
    let mut state = three_dirs();
    state.navigation.set_cursor(0);
    state.move_selection(-1);
    assert_eq!(state.navigation.cursor(), 2);
}

#[test]
fn test_move_selection_arbitrary_delta() {
    let mut state = three_dirs();
    state.navigation.set_cursor(1);
    state.move_selection(5);
    assert_eq!(state.navigation.cursor(), 0);

    state.navigation.set_cursor(1);
    state.move_selection(-5);
    assert_eq!(state.navigation.cursor(), 2);
}

#[test]
fn move_selection_there_and_back() {
    let mut state = three_dirs();
    state.navigation.set_cursor(1);
    state.move_selection(7);
    state.move_selection(-7);
    assert_eq!(state.navigation.cursor(), 1);
}

#[test]
fn test_navigate_out_does_not_panic() {
    let mut state = state_at("/tmp/some/dir", vec![]);
    let parent = state.navigate_out_target();
    assert_eq!(parent, Some("/tmp/some".to_string()));
    let changed = state.jump_to_path(parent.unwrap(), vec![], None);
    assert!(changed);
    assert_eq!(state.current_path, "/tmp/some");
    let mut root = state_at("/", vec![]);
    assert_eq!(root.navigate_out_target(), None);
    root.move_selection(1);
}

#[test]
fn test_search_editing_resets_selection() {
    let mut state = state_at("/tmp/empty", vec![]);
    state.navigation.update_items(vec![
        entry("alpha", 1, true, 0),
        entry("beta", 1, true, 0),
    ]);
    state.navigation.set_cursor(1);

    state.push_search_char('a');
    assert_eq!(state.navigation.cursor(), 0);
    assert_eq!(state.navigation.filter_query().unwrap_or_default(), "a");

    state.pop_search_char();
    assert_eq!(state.navigation.cursor(), 0);
    assert!(state.navigation.filter_query().unwrap_or_default().is_empty());
}

#[test]
fn test_sorting_modes() {
    let mut state = state_at("/tmp/empty", vec![]);

    let t1: i128 = 100 * 1_000_000_000;
    let t2: i128 = 200 * 1_000_000_000;

    let e1 = DirEntry {
        path: "z_file".to_string(),
        size: 50,
        entry_type: EntryType::Directory,
        mtime: t1,
        display_path: "z_file".to_string(),
        symlink_target: None,
    };
    let e2 = DirEntry {
        path: "a_file".to_string(),
        size: 100,
        entry_type: EntryType::Directory,
        mtime: t2,
        display_path: "a_file".to_string(),
        symlink_target: None,
    };

    state.navigation.update_items(vec![e1.clone(), e2.clone()]);

    assert_eq!(state.navigation.visible_items()[0].path, "a_file");

    state.navigation.set_sort_mode(SortMode::NameAsc);
    assert_eq!(state.navigation.visible_items()[0].path, "a_file");

    state.navigation.set_sort_mode(SortMode::MtimeDesc);
    assert_eq!(state.navigation.visible_items()[0].path, "a_file");

    state.navigation.set_sort_mode(SortMode::SizeDesc);
    state.cycle_sort_mode();
    assert_eq!(state.navigation.sort_mode(), SortMode::NameAsc);
}

#[test]
fn sort_cycle_returns_after_three_steps() {
    let mut state = three_dirs();
    let start = state.navigation.sort_mode();
    state.cycle_sort_mode();
    state.cycle_sort_mode();
    state.cycle_sort_mode();
    assert_eq!(state.navigation.sort_mode(), start);
}

#[test]
fn test_directory_expansion() {
    let mut state = state_at("/w", vec![entry("/w/sub_dir", 11, true, 0)]);

    let visible_before = state.visible_items();
    assert_eq!(visible_before.len(), 1);
    assert_eq!(visible_before[0].0.path, "/w/sub_dir");

    state.navigation.set_cursor(0);
    let load = state.toggle_expand();
    assert_eq!(load, Some("/w/sub_dir".to_string()));
    state.add_entries(vec![entry("/w/sub_dir/child.txt", 11, false, 0)]);

    let visible_after = state.visible_items();
    assert_eq!(visible_after.len(), 2);
    assert_eq!(visible_after[0].0.path, "/w/sub_dir");
    assert_eq!(visible_after[1].0.path, "/w/sub_dir/child.txt");
    assert_eq!(visible_after[1].1, 1);

    assert_eq!(state.toggle_expand(), None);
    let visible_collapsed = state.visible_items();
    assert_eq!(visible_collapsed.len(), 1);
    assert_eq!(visible_collapsed[0].0.path, "/w/sub_dir");
}

#[test]
fn test_tree_cursor_movement_and_selection() {
    let mut state = state_at(
        "/w",
        vec![
            entry("/w/dir1", 7, true, 0),
            entry("/w/dir2", 0, true, 0),
            entry("/w/dir1/file1.txt", 7, false, 0),
        ],
    );
    state.navigation.set_sort_mode(SortMode::NameAsc);
    state.sync_navigation_items();

    let visible = state.visible_items();
    assert_eq!(visible.len(), 2);
    assert_eq!(visible[0].0.path, "/w/dir1");
    assert_eq!(visible[1].0.path, "/w/dir2");
    assert_eq!(state.navigation.cursor(), 0);

    state.toggle_expand();
    let expanded = state.visible_items();
    assert_eq!(expanded.len(), 3);
    assert_eq!(expanded[0].0.path, "/w/dir1");
    assert_eq!(expanded[1].0.path, "/w/dir1/file1.txt");
    assert_eq!(expanded[2].0.path, "/w/dir2");
    assert_eq!(state.navigation.cursor(), 0);

    state.navigation.move_cursor(ascope::navigation::Direction::Down);
    assert_eq!(state.navigation.current_selection().unwrap().path, "/w/dir1/file1.txt");
    state.navigation.move_cursor(ascope::navigation::Direction::Down);
    state.navigation.move_cursor(ascope::navigation::Direction::Down);
    assert_eq!(state.navigation.cursor(), 2);
    assert_eq!(state.navigation.current_selection().unwrap().path, "/w/dir2");
}

#[test]
fn test_tab_management() {
    let mut state = state_at("/tmp/root", vec![]);

    assert_eq!(state.tabs.len(), 1);
    assert_eq!(state.active_tab, 0);

    state.close_tab();
    assert_eq!(state.tabs.len(), 1);

    state.open_tab("/tmp/root".to_string(), vec![], None);
    assert_eq!(state.tabs.len(), 2);
    assert_eq!(state.active_tab, 1);

    state.prev_tab();
    assert_eq!(state.active_tab, 0);

    state.next_tab();
    assert_eq!(state.active_tab, 1);

    state.close_tab();
    assert_eq!(state.tabs.len(), 1);
    assert_eq!(state.active_tab, 0);
}

#[test]
fn tabs_keep_their_own_directories() {
    let mut state = state_at("/a", vec![entry("/a/x", 1, false, 0)]);
    state.open_tab("/b".to_string(), vec![entry("/b/y", 2, false, 0)], None);
    assert_eq!(state.current_path, "/b");
    state.next_tab();
    assert_eq!(state.current_path, "/a");
    assert_eq!(state.all_entries[0].path, "/a/x");
    state.next_tab();
    assert_eq!(state.current_path, "/b");
}

#[test]
fn test_bookmarks_and_recent_history() {
    let mut state = state_at("/tmp/bookmarks", vec![]);

    assert_eq!(state.config.recent.len(), 1);
    assert_eq!(state.config.recent[0], "/tmp/bookmarks");

    assert!(state.add_bookmark());
    assert_eq!(state.config.bookmarks.len(), 1);
    assert_eq!(state.config.bookmarks[0], "/tmp/bookmarks");

    assert!(!state.add_bookmark());
    assert_eq!(state.config.bookmarks.len(), 1);

    assert!(state.remove_bookmark(0));
    assert_eq!(state.config.bookmarks.len(), 0);
}

#[test]
fn test_config_persistence_and_deduplication() {
    let mut config = Config::new();
    config.bookmarks.push("/a".to_string());
    config.bookmarks.push("/a".to_string());
    config.bookmarks.push("/b".to_string());

    config.dedup_bookmarks();
    assert_eq!(config.bookmarks.len(), 2);
    assert_eq!(config.bookmarks[0], "/a");
    assert_eq!(config.bookmarks[1], "/b");
}

#[test]
fn test_remove_recent() {
    let mut state = state_at("/tmp/recent", vec![]);

    state.record_navigation("/recent_a");
    state.record_navigation("/recent_b");

    assert!(state.config.recent.contains(&"/recent_a".to_string()));
    assert!(state.config.recent.contains(&"/recent_b".to_string()));

    let idx = state
        .config
        .recent
        .iter()
        .position(|p| p == "/recent_a")
        .unwrap();
    state.remove_recent(idx);

    assert!(!state.config.recent.contains(&"/recent_a".to_string()));
}

#[test]
fn recent_list_is_capped_and_newest_first() {
    let mut state = state_at("/start", vec![]);
    for i in 0..60 {
        state.record_navigation(&format!("/d{}", i));
    }
    assert_eq!(state.config.recent.len(), 50);
    assert_eq!(state.config.recent[0], "/d59");
    assert!(!state.record_navigation("/d59"));
    assert_eq!(state.config.recent[0], "/d59");
}

#[test]
fn test_bookmark_notification() {
    let mut state = state_at("/tmp/notify", vec![]);

    assert!(state.notification.is_none());
    state.add_bookmark();
    assert!(state.notification.is_some());
    let msg = state.notification.clone().unwrap();
    assert!(msg.contains("Added to Bookmarks:"));
    assert_eq!(msg, "Added to Bookmarks: notify");
}

#[test]
fn test_toggle_select_files() {
    let mut state = state_at("/w", vec![]);
    state
        .navigation
        .update_items(vec![entry("/w/file1.txt", 0, false, 0)]);
    state.navigation.set_cursor(0);

    assert!(state.selected_paths.is_empty());
    state.toggle_select();
    assert_eq!(state.selected_paths.len(), 1);
    assert!(state.selected_paths.contains(&"/w/file1.txt".to_string()));

    state.toggle_select();
    assert!(state.selected_paths.is_empty());
}

#[test]
fn test_help_modal_state() {
    let mut state = state_at("/tmp/help", vec![]);
    assert!(!state.show_help);
    assert_eq!(state.help_selected_index, 0);

    state.show_help = true;
    assert!(state.show_help);
}

#[test]
fn test_image_and_pdf_preview_type_detection() {
    let state = state_at("/tmp/preview", vec![]);
    assert_eq!(state.detect_preview_type("image.png"), PreviewType::Image);
    assert_eq!(state.detect_preview_type("doc.pdf"), PreviewType::Image);
    assert_eq!(state.detect_preview_type("text.txt"), PreviewType::Text);
}

#[test]
fn test_preview_type_detection() {
    let state = state_at("/tmp/preview", vec![]);
    assert_eq!(state.detect_preview_type("image.png"), PreviewType::Image);
    assert_eq!(state.detect_preview_type("image.JPG"), PreviewType::Image);
    assert_eq!(state.detect_preview_type("code.rs"), PreviewType::Text);
    assert_eq!(state.detect_preview_type("document.pdf"), PreviewType::Image);
}

#[test]
fn archives_are_not_previewed() {
    let state = state_at("/tmp/preview", vec![]);
    assert_eq!(state.detect_preview_type("bundle.tar.GZ"), PreviewType::Unsupported);
    assert_eq!(state.detect_preview_type("Makefile"), PreviewType::Text);
}

#[test]
fn test_search_overlay_modal_mode() {
    let mut state = state_at("/tmp/overlay", vec![]);
    assert_eq!(state.modal_mode, ModalMode::NoModal);
    state.modal_mode = ModalMode::SearchOverlay;
    assert_eq!(state.modal_mode, ModalMode::SearchOverlay);
}

#[test]
fn test_search_overlay_fuzzy_matching() {
    let mut state = state_at(
        "/w",
        vec![entry("/w/main.rs", 1, false, 0), entry("/w/lib.rs", 1, false, 0)],
    );
    state.modal_mode = ModalMode::SearchOverlay;
    state.search_overlay_mode = ascope::app::SearchOverlayMode::FuzzyFiles;
    state.search_overlay_input = "main".to_string();
    assert!(state.update_search_overlay_results().is_none());
    assert!(!state.search_overlay_results.is_empty());
    assert!(state.search_overlay_results[0].text.contains("main.rs"));
}

#[test]
fn empty_overlay_lists_every_file() {
    let mut state = state_at(
        "/w",
        vec![entry("/w/a.rs", 1, false, 0), entry("/w/d", 1, true, 0), entry("/w/b.rs", 1, false, 0)],
    );
    state.update_search_overlay_results();
    let names: Vec<String> = state.search_overlay_results.iter().map(|m| m.text.clone()).collect();
    assert_eq!(names, vec!["a.rs".to_string(), "b.rs".to_string()]);
}

#[test]
fn grep_overlay_asks_for_a_search() {
    let mut state = state_at("/w", vec![]);
    state.search_overlay_mode = ascope::app::SearchOverlayMode::LiveGrep;
    state.search_overlay_input = "todo".to_string();
    let q = state.update_search_overlay_results().unwrap();
    assert_eq!(q.query, "todo");
    assert_eq!(q.dir, "/w");
    state.modal_mode = ModalMode::SearchOverlay;
    state.apply_search_message(&ascope::search::ripgrep::RgMessage::Match(ascope::search::ripgrep::RgMatch {
        path: "/w/src/lib.rs".to_string(),
        line_number: 12,
        text: "// todo: x  \n".to_string(),
    }));
    assert_eq!(state.search_overlay_results.len(), 1);
    assert_eq!(state.search_overlay_results[0].text, "lib.rs:12: // todo: x");
    assert_eq!(state.search_overlay_results[0].line_number, Some(12));
}

#[test]
fn test_command_palette_fuzzy_matching() {
    let mut state = state_at("/tmp/palette", vec![]);
    state.command_palette_candidates = vec![
        DetectedCommand {
            name: "npm run dev".to_string(),
            cmd: "npm run dev".to_string(),
            source: "package.json".to_string(),
        },
        DetectedCommand {
            name: "cargo test".to_string(),
            cmd: "cargo test".to_string(),
            source: "Cargo".to_string(),
        },
    ];
    state.command_palette_input = "npm".to_string();
    state.update_command_palette_results();

    assert_eq!(state.command_palette_results.len(), 1);
    assert_eq!(state.command_palette_results[0].name, "npm run dev");
}

#[test]
fn palette_bang_runs_a_shell_command() {
    let mut state = state_at("/tmp/palette", vec![]);
    state.command_palette_input = "!  ls -la ".to_string();
    state.update_command_palette_results();
    assert_eq!(state.command_palette_results.len(), 1);
    assert_eq!(state.command_palette_results[0].name, "Run: ls -la");
    assert_eq!(state.command_palette_results[0].cmd, "ls -la");
    state.command_palette_input = "!".to_string();
    state.update_command_palette_results();
    assert_eq!(state.command_palette_results[0].name, "Enter a shell command to execute...");
    assert_eq!(state.command_palette_results[0].cmd, "");
}

#[test]
fn plugin_overlay_filters_by_label() {
    let mut state = state_at("/tmp/plugin", vec![]);
    state.open_plugin_modal(
        "Pick".to_string(),
        vec![
            ascope::app::PluginOverlayItem { label: "Item 1".to_string(), value: "val1".to_string() },
            ascope::app::PluginOverlayItem { label: "Other".to_string(), value: "val2".to_string() },
        ],
    );
    assert_eq!(state.modal_mode, ModalMode::PluginOverlay);
    state.plugin_modal_input = "ITEM".to_string();
    state.update_plugin_modal_filtering();
    assert_eq!(state.plugin_modal_filtered_items.len(), 1);
    assert_eq!(state.plugin_modal_filtered_items[0].value, "val1");
}

#[test]
fn yank_and_cut_report_their_targets() {
    let mut state = state_at("/w", vec![entry("/w/a.txt", 1, false, 0), entry("/w/b.txt", 2, false, 0)]);
    let text = state.yank_full_path().unwrap();
    assert_eq!(text, "/w/b.txt");
    assert_eq!(state.notification.clone().unwrap(), "Yanked: b.txt");
    assert_eq!(state.yanked_files, vec!["/w/b.txt".to_string()]);

    state.toggle_select();
    state.navigation.set_cursor(1);
    state.toggle_select();
    let names = state.yank_filename().unwrap();
    assert_eq!(names, "b.txt\na.txt");
    assert_eq!(state.notification.clone().unwrap(), "Yanked filename(s) of 2 items");
    assert!(state.selected_paths.is_empty());

    state.cut_file();
    assert_eq!(state.cut_files, vec!["/w/a.txt".to_string()]);
    assert!(state.yanked_files.is_empty());
    let (moving, jobs) = state.paste_plan().unwrap();
    assert!(moving);
    assert_eq!(jobs, vec![("/w/a.txt".to_string(), "/w/a.txt".to_string())]);
    state.finish_paste(true, 1, 0);
    assert_eq!(state.notification.clone().unwrap(), "Moved 1 items successfully");
    assert!(state.cut_files.is_empty());
    state.finish_paste(false, 2, 1);
    assert_eq!(state.notification.clone().unwrap(), "Pasted 2 items with 1 errors");
}

#[test]
fn delete_and_rename_dialogs() {
    let mut state = state_at("/w", vec![entry("/w/delete_me.txt", 0, false, 0)]);
    state.request_delete();
    assert_eq!(state.modal_mode, ModalMode::DeleteConfirmation);
    assert_eq!(state.delete_targets, vec!["/w/delete_me.txt".to_string()]);
    state.finish_delete(0, 1);
    assert_eq!(state.notification.clone().unwrap(), "Deleted 0/1 items (1 errors)");
    assert_eq!(state.modal_mode, ModalMode::NoModal);
    assert!(state.delete_targets.is_empty());

    state.request_rename();
    assert!(state.rename_mode);
    assert_eq!(state.rename_input, "delete_me.txt");
    state.rename_input = "new_name.txt".to_string();
    let plan = state.rename_request().unwrap();
    assert_eq!(plan, ("/w/delete_me.txt".to_string(), "/w/new_name.txt".to_string()));
    state.confirm_rename(Some(true));
    assert_eq!(state.notification.clone().unwrap(), "Renamed delete_me.txt to new_name.txt");
    assert!(!state.rename_mode);
    assert!(state.rename_input.is_empty());
    assert!(state.rename_target.is_none());
}

#[test]
fn size_popup_needs_a_directory() {
    let mut state = state_at("/w", vec![entry("/w/file", 1, false, 0), entry("/w/dir", 2, true, 0)]);
    assert_eq!(state.trigger_size_details_popup(), Some("/w/dir".to_string()));
    assert_eq!(state.modal_mode, ModalMode::SizeDetails);
    assert_eq!(state.size_popup_path, Some("/w/dir".to_string()));
    state.close_size_details_popup();
    assert_eq!(state.modal_mode, ModalMode::NoModal);
    assert!(state.size_popup_path.is_none());
    state.navigation.set_cursor(1);
    assert_eq!(state.trigger_size_details_popup(), None);
    assert_eq!(
        state.notification.clone().unwrap(),
        "Cannot scan size: selected item is a file (must select a folder)"
    );
}

#[test]
fn scan_results_replace_the_listing_once() {
    let mut state = state_at("/w", vec![entry("/w/sub", 0, true, 0)]);
    state.apply_scan(vec![
        entry("/w/sub", 30, true, 0),
        entry("/w/sub/x", 30, false, 0),
        entry("/w/y", 40, false, 0),
    ]);
    assert!(state.scan_applied);
    let rows = state.visible_items();
    assert_eq!(rows.len(), 2);
    assert_eq!(rows[0].0.path, "/w/y");
    assert_eq!(rows[1].0.path, "/w/sub");
    state.apply_scan(vec![]);
    assert_eq!(state.all_entries.len(), 3);
}

#[test]
fn dashboard_counts_files_and_extensions() {
    let listing = vec![
        ListingEntry { name: "file1.rs".to_string(), kind: ListingKind::File, size: 10 },
        ListingEntry { name: "file2.json".to_string(), kind: ListingKind::File, size: 30 },
        ListingEntry { name: "subdir".to_string(), kind: ListingKind::Directory, size: 0 },
        ListingEntry { name: "README".to_string(), kind: ListingKind::File, size: 20 },
        ListingEntry { name: "x.RS".to_string(), kind: ListingKind::File, size: 5 },
    ];
    let summary = FolderDashboardSummary::from_listing("/w".to_string(), &listing);
    assert_eq!(summary.file_count, 4);
    assert_eq!(summary.dir_count, 1);
    assert_eq!(summary.total_immediate_size, 65);
    assert_eq!(summary.top_files[0], ("file2.json".to_string(), 30));
    assert_eq!(summary.top_files[3], ("x.RS".to_string(), 5));
    assert_eq!(summary.extension_counts[0], ("rs".to_string(), 2));
    assert!(summary.extension_counts.iter().any(|(ext, count)| ext == "json" && *count == 1));
    assert!(summary.extension_counts.iter().any(|(ext, count)| ext == "no ext" && *count == 1));
}

fn visible_paths(state: &AppState) -> Vec<(String, u32)> {
    state.visible_items().into_iter().map(|(e, d)| (e.path, d)).collect()
}

#[test]
fn expand_load_collapse_restores_the_rows() {
    let mut state = state_at(
        "/w",
        vec![entry("/w/a", 3, true, 0), entry("/w/b", 2, true, 0), entry("/w/c.txt", 1, false, 0)],
    );
    let before = visible_paths(&state);
    state.navigation.set_cursor(1);
    assert_eq!(state.toggle_expand(), Some("/w/b".to_string()));
    state.add_entries(vec![entry("/w/b/x", 1, false, 0), entry("/w/b/y", 1, true, 0)]);
    assert_eq!(visible_paths(&state).len(), 5);
    assert_eq!(state.toggle_expand(), None);
    assert_eq!(visible_paths(&state), before);
}

#[test]
fn toggling_three_times_leaves_the_directory_expanded() {
    let mut state = state_at("/w", vec![entry("/w/a", 3, true, 0), entry("/w/a/f", 1, false, 0)]);
    state.navigation.set_cursor(0);
    for _ in 0..3 {
        state.toggle_expand();
    }
    assert!(state.navigation.is_expanded("/w/a"));
    state.toggle_expand();
    assert!(!state.navigation.is_expanded("/w/a"));
}

#[test]
fn notification_goes_after_three_seconds() {
    let mut state = state_at("/w", vec![]);
    assert!(!state.expire_notification(5000));
    state.notification = Some("Saved".to_string());
    assert!(!state.expire_notification(2999));
    assert_eq!(state.notification, Some("Saved".to_string()));
    assert!(state.expire_notification(3000));
    assert_eq!(state.notification, None);
}

#[test]
fn a_current_directory_with_a_trailing_separator_lists_its_entries() {
    let state = state_at("/w/", vec![entry("/w/a", 3, true, 0), entry("/w/b.txt", 1, false, 0)]);
    let rows = visible_paths(&state);
    assert_eq!(rows, vec![("/w/a".to_string(), 0), ("/w/b.txt".to_string(), 0)]);
}

#[test]
fn bookmarks_and_recent_compare_paths_by_components() {
    let mut config = Config::new();
    assert!(config.add_bookmark("/w/a"));
    assert!(!config.add_bookmark("/w/a/"));
    assert!(!config.add_bookmark("/w//a"));
    assert_eq!(config.bookmarks, vec!["/w/a".to_string()]);
    assert!(config.record_recent("/w/b/"));
    assert!(!config.record_recent("/w/b"));
    assert_eq!(config.recent, vec!["/w/b/".to_string()]);
}

#[test]
fn expansion_compares_paths_by_components() {
    let mut state = state_at("/w", vec![entry("/w/a", 3, true, 0), entry("/w/a/f", 1, false, 0)]);
    state.navigation.set_cursor(0);
    state.toggle_expand();
    assert!(state.navigation.is_expanded("/w/a/"));
    assert!(state.navigation.is_expanded("/w//a"));
}
