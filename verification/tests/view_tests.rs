use ascope::app::preview_plan::PreviewStep;
use ascope::app::{AppState, ModalMode};
use ascope::config::Config;
use ascope::fs::walker::{format_size, DirEntry, EntryType};
use ascope::preview::half_block_rows;
use ascope::ui::dialogs::{shorten_path, DeleteSubject, DialogBody, DialogFooter, RowMark};
use ascope::ui::layout::{centered_rect, centered_rect_fixed, notification_area, shadow_area, Area};
use ascope::ui::preview_text::highlight_segments;
use ascope::ui::tree_rows::RowTag;
use ascope::ui::view::{get_icon, get_icon_style, Tint};

fn file(path: &str, size: u64) -> DirEntry {
    DirEntry {
        path: path.to_string(),
        size,
        entry_type: EntryType::File,
        mtime: 7,
        display_path: path.to_string(),
        symlink_target: None,
    }
}

fn dir(path: &str, size: u64) -> DirEntry {
    DirEntry { entry_type: EntryType::Directory, ..file(path, size) }
}

fn sample() -> AppState {
    AppState::new(
        "/w".to_string(),
        vec![file("/w/big", 300), dir("/w/dir", 200), file("/w/small.rs", 10)],
        None,
        Config::new(),
        vec![],
    )
}

#[test]
fn tree_rows_show_names_sizes_and_cursor() {
    let state = sample();
    let (start, rows) = state.tree_rows(10);
    assert_eq!(start, 0);
    assert_eq!(rows.len(), 3);
    assert_eq!(rows[0].name, "big");
    assert!(rows[0].is_cursor);
    assert!(!rows[1].is_cursor);
    assert_eq!(rows[0].indent, " ");
    assert_eq!(rows[0].size_label.as_deref(), Some(format_size(300).as_str()));
    assert_eq!(rows[1].icon, get_icon("/w/dir", EntryType::Directory));
    assert_eq!(rows[2].name, "small.rs");
    assert_eq!(rows[0].tag, RowTag::Plain);
    assert_eq!(rows[0].score_badge, None);
    assert_eq!(rows[0].mtime, 7);
}

#[test]
fn tree_rows_scroll_with_the_cursor() {
    let entries: Vec<DirEntry> = (0..20).map(|i| file(&format!("/w/f{:02}", i), 100 - i as u64)).collect();
    let mut state = AppState::new("/w".to_string(), entries, None, Config::new(), vec![]);
    state.move_selection(15);
    let (start, rows) = state.tree_rows(7);
    assert_eq!(rows.len(), 5);
    assert!(start <= 15 && 15 < start + 5);
    assert!(rows[15 - start].is_cursor);
    let (_, none) = state.tree_rows(1);
    assert!(none.is_empty());
}

#[test]
fn tree_rows_mark_clipboard_and_links() {
    let mut link = file("/w/link", 1);
    link.symlink_target = Some("/target".to_string());
    let mut state = AppState::new("/w".to_string(), vec![file("/w/a", 5), link], None, Config::new(), vec![]);
    let _ = state.yank_full_path();
    let (_, rows) = state.tree_rows(10);
    assert_eq!(rows[0].tag, RowTag::Yanked);
    assert_eq!(rows[1].name, "link -> /target");
    state.cut_file();
    let (_, rows) = state.tree_rows(10);
    assert_eq!(rows[0].tag, RowTag::Cut);
}

#[test]
fn filter_scores_show_only_while_typing() {
    let mut state = sample();
    state.push_search_char('s');
    let (_, rows) = state.tree_rows(10);
    assert!(!rows.is_empty());
    assert!(rows.iter().all(|r| r.score_badge.map_or(true, |s| s > 0)));
    assert!(rows.iter().any(|r| r.score_badge.is_some()));
}

#[test]
fn bookmarks_dialog_marks_typed_and_highlighted_rows() {
    let mut state = sample();
    state.config.bookmarks = vec!["/a".to_string(), "/b".to_string(), "/c".to_string()];
    state.modal_mode = ModalMode::Bookmarks;
    state.modal_selected_index = 0;
    state.modal_input = "2".to_string();
    let d = state.list_dialog();
    assert_eq!(d.title, " Bookmarks persistence ");
    assert!(matches!(d.footer, DialogFooter::GoTo(ref t) if t == "2"));
    match d.body {
        DialogBody::Rows(rows) => {
            assert_eq!(rows.len(), 3);
            assert_eq!(rows[0].mark, RowMark::Cursor);
            assert_eq!(rows[1].mark, RowMark::Typed);
            assert_eq!(rows[2].mark, RowMark::Plain);
            assert_eq!(rows[2].number, 3);
            assert_eq!(rows[1].path, "/b");
        }
        DialogBody::Message(_) => panic!("expected rows"),
    }
}

#[test]
fn empty_bookmarks_dialog_explains_itself() {
    let mut state = sample();
    state.modal_mode = ModalMode::Bookmarks;
    let d = state.list_dialog();
    assert!(matches!(d.footer, DialogFooter::Keys));
    match d.body {
        DialogBody::Message(m) => assert!(m.contains("No bookmarks saved yet.")),
        DialogBody::Rows(_) => panic!("expected a message"),
    }
    state.modal_mode = ModalMode::Recent;
    let d = state.list_dialog();
    assert_eq!(d.title, " Recently Visited Directories ");
    assert!(matches!(d.body, DialogBody::Rows(ref r) if r.len() == 1 && r[0].path == "/w"));
}

#[test]
fn long_paths_are_shortened_to_their_last_bytes() {
    let short = "/a/b/c";
    assert_eq!(shorten_path(short), short);
    let exactly = "x".repeat(42);
    assert_eq!(shorten_path(&exactly), exactly);
    let long = format!("/{}", "d".repeat(60));
    let shown = shorten_path(&long);
    assert_eq!(shown, format!("...{}", &long[long.len() - 39..]));
    assert_eq!(shown.len(), 42);
    let accented = format!("/{}é{}", "a".repeat(10), "b".repeat(37));
    assert_eq!(shorten_path(&accented), format!("...é{}", "b".repeat(37)));
}

#[test]
fn confirmation_dialogs_name_their_subject() {
    let mut state = sample();
    state.modal_target_path = Some("/w/dir".to_string());
    state.modal_confirm_new_tab = true;
    assert_eq!(state.open_dialog(), ("/w/dir".to_string(), true));
    state.delete_targets = vec!["/w/big".to_string()];
    assert!(matches!(state.delete_dialog(), DeleteSubject::One(ref p) if p == "/w/big"));
    state.delete_targets = vec!["/w/big".to_string(), "/w/dir".to_string()];
    assert!(matches!(state.delete_dialog(), DeleteSubject::Many(2)));
}

#[test]
fn status_tabs_and_search_line() {
    let mut state = sample();
    let view = state.status_view(false, 1536);
    assert_eq!(view.path, "/w");
    assert_eq!(view.entries, 3);
    assert_eq!(view.size_label, format_size(1536));
    assert_eq!(view.sort_label, " sort: size↓ ");
    assert!(view.git.is_none());
    assert_eq!(state.tab_labels(), vec![(" 1: w ".to_string(), true)]);
    assert_eq!(state.search_prompt(), "Search:  (0 matches)");
    state.push_search_char('b');
    let n = state.visible_items().len();
    assert_eq!(state.search_prompt(), format!("Search: b ({} matches)", n));
}

#[test]
fn dialog_geometry() {
    let screen = Area { x: 0, y: 0, width: 80, height: 24 };
    assert_eq!(centered_rect_fixed(50, 9, screen), Area { x: 15, y: 7, width: 50, height: 9 });
    assert_eq!(centered_rect_fixed(100, 30, screen), screen);
    assert_eq!(notification_area(screen, 10, 1), Area { x: 68, y: 20, width: 12, height: 3 });
    assert_eq!(
        shadow_area(Area { x: 15, y: 7, width: 50, height: 9 }, screen),
        Some(Area { x: 16, y: 8, width: 50, height: 9 })
    );
    assert_eq!(shadow_area(Area { x: 0, y: 0, width: 1, height: 5 }, screen), None);
    assert_eq!(
        shadow_area(Area { x: 70, y: 20, width: 20, height: 10 }, screen),
        Some(Area { x: 71, y: 21, width: 9, height: 3 })
    );
    assert_eq!(
        centered_rect(50, 50, Area { x: 0, y: 0, width: 100, height: 100 }),
        Area { x: 25, y: 25, width: 50, height: 50 }
    );
}

#[test]
fn icon_colours() {
    assert_eq!(get_icon_style("src/main.rs", EntryType::File), Tint::Rgb(244, 91, 50));
    assert_eq!(get_icon_style("PHOTO.JPG", EntryType::File), Tint::LightMagenta);
    assert_eq!(get_icon_style("Makefile", EntryType::File), Tint::Yellow);
    assert_eq!(get_icon_style("notes", EntryType::File), Tint::White);
    assert_eq!(get_icon_style("src", EntryType::Directory), Tint::LightBlue);
    assert_eq!(get_icon_style("l", EntryType::Symlink), Tint::LightMagenta);
}

#[test]
fn preview_follows_selection_and_cache() {
    let state = sample();
    let target = state.preview_target();
    assert_eq!(target.path.as_deref(), Some("/w/big"));
    assert_eq!(target.line, None);
    assert_eq!(target.query, "");
    assert_eq!(state.preview_step(&target, &None, true), PreviewStep::Text);
    assert_eq!(state.preview_step(&target, &None, false), PreviewStep::Clear);
    let cached = Some(("/w/big".to_string(), String::new(), None));
    assert_eq!(state.preview_step(&target, &cached, true), PreviewStep::Keep);
    let mut image = target.clone();
    image.path = Some("/w/p.PNG".to_string());
    assert_eq!(state.preview_step(&image, &cached, true), PreviewStep::Image);
}

#[test]
fn half_blocks_pair_pixel_rows() {
    let px = vec![(1, 1, 1), (2, 2, 2), (3, 3, 3), (4, 4, 4), (5, 5, 5), (6, 6, 6)];
    let rows = half_block_rows(&px, 2, 3);
    assert_eq!(rows.len(), 2);
    assert_eq!(rows[0], vec![((1, 1, 1), (3, 3, 3)), ((2, 2, 2), (4, 4, 4))]);
    assert_eq!(rows[1], vec![((5, 5, 5), (0, 0, 0)), ((6, 6, 6), (0, 0, 0))]);
}

#[test]
fn deleting_a_typed_character_restores_the_query() {
    let mut state = sample();
    state.push_search_char('s');
    state.push_search_char('m');
    state.pop_search_char();
    assert_eq!(state.navigation.filter_query().as_deref(), Some("s"));
    state.pop_search_char();
    assert_eq!(state.navigation.filter_query(), None);
}

#[test]
fn expanding_twice_collapses_again() {
    let mut state = sample();
    state.move_selection(1);
    assert_eq!(state.navigation.current_selection().map(|e| e.path), Some("/w/dir".to_string()));
    let load = state.toggle_expand();
    assert_eq!(load.as_deref(), Some("/w/dir"));
    assert!(state.navigation.is_expanded("/w/dir"));
    let again = state.toggle_expand();
    assert_eq!(again, None);
    assert!(!state.navigation.is_expanded("/w/dir"));
}

#[test]
fn removing_a_new_bookmark_restores_the_list() {
    let mut config = Config::new();
    config.add_bookmark("/a");
    let before = config.bookmarks.clone();
    assert!(config.add_bookmark("/b"));
    config.remove_bookmark(before.len());
    assert_eq!(config.bookmarks, before);
}

#[test]
fn highlighting_keeps_the_text() {
    for (text, query) in [("Hello hello HELLO", "ll"), ("abc", "zz"), ("", "a"), ("aaa", "aa"), ("text", "")] {
        let joined: String = highlight_segments(text, query).into_iter().map(|(t, _)| t).collect();
        assert_eq!(joined, text);
    }
}

#[test]
fn going_back_leaves_an_entered_directory() {
    let mut state = sample();
    state.move_selection(1);
    let target = state.navigate_in_target().unwrap();
    let _ = state.jump_to_path(target, vec![], None);
    assert_eq!(state.navigate_out_target().as_deref(), Some("/w"));
}
