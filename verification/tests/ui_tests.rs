use ascope::ui::tree_rows::tree_indent;
use ascope::fs::walker::EntryType;
use ascope::ui::layout::{build_layout, centered_rect, panes, Area};
use ascope::ui::preview_text::{
    highlight_segments, is_binary_content, match_line_and_total, preview_window, sanitize_line,
};
use ascope::ui::view::{get_icon, help_items, is_using_bat_previewer, list_window_start};

#[test]
fn test_layout_calculation_standard() {
    let area = Area { x: 0, y: 0, width: 80, height: 24 };
    let layout = build_layout(area, true, true);

    assert_eq!(layout.tab_bar.height, 1);
    assert_eq!(layout.search_bar.height, 3);
    assert_eq!(layout.status_bar.height, 1);
    assert_eq!(layout.main_area.height, 19);
}

#[test]
fn test_layout_calculation_no_status_small_terminal() {
    let area = Area { x: 0, y: 0, width: 80, height: 8 };
    let layout = build_layout(area, false, false);

    assert_eq!(layout.tab_bar.height, 0);
    assert_eq!(layout.search_bar.height, 0);
    assert_eq!(layout.status_bar.height, 0);
    assert_eq!(layout.main_area.height, 8);
}

#[test]
fn test_icon_lookup() {
    assert_eq!(get_icon("main.rs", EntryType::File), "\u{f1617}");
    assert_eq!(get_icon("src", EntryType::Directory), "\u{f024b}");
}

#[test]
fn icons_follow_extension_and_name() {
    assert_eq!(get_icon("photo.PNG", EntryType::File), get_icon("a.jpg", EntryType::File));
    assert_eq!(get_icon("Makefile", EntryType::File), get_icon("Gemfile", EntryType::File));
    assert_eq!(get_icon("unknown.xyz", EntryType::File), get_icon("plain", EntryType::File));
    assert_ne!(get_icon("main.rs", EntryType::File), get_icon("main.go", EntryType::File));
}

#[test]
fn test_help_modal_items() {
    let items = help_items();
    let has_quit = items.iter().any(|item| item.desc.to_lowercase().contains("quit"));
    let has_navigate = items.iter().any(|item| {
        item.desc.to_lowercase().contains("navigate") || item.desc.to_lowercase().contains("directory")
    });
    assert!(has_quit, "Help items should contain quit description");
    assert!(has_navigate, "Help items should contain navigate/directory description");
    assert_eq!(items.len(), 28);
    assert_eq!(items[0].key, "q / Esc");
}

#[test]
fn test_is_using_bat_previewer() {
    assert!(is_using_bat_previewer());
}

#[test]
fn list_window_follows_the_cursor() {
    assert_eq!(list_window_start(5, 10, 3), 0);
    assert_eq!(list_window_start(100, 10, 2), 0);
    assert_eq!(list_window_start(100, 10, 50), 45);
    assert_eq!(list_window_start(100, 10, 97), 90);
}

#[test]
fn binary_detection() {
    assert!(!is_binary_content(b""));
    assert!(!is_binary_content(b"hello\tworld\r\n"));
    assert!(is_binary_content(b"ab\0cd"));
    let mut mostly_text = vec![b'a'; 95];
    mostly_text.extend_from_slice(&[1u8; 5]);
    assert!(!is_binary_content(&mostly_text));
    let mut noisy = vec![b'a'; 94];
    noisy.extend_from_slice(&[1u8; 6]);
    assert!(is_binary_content(&noisy));
}

#[test]
fn match_line_is_found_ignoring_case() {
    assert_eq!(match_line_and_total("line 1\nline 2\nLine 3\n", "LINE 3"), (2, 3));
    assert_eq!(match_line_and_total("a\nb\n", ""), (0, 2));
    assert_eq!(match_line_and_total("a\nb", "zzz"), (0, 2));
}

#[test]
fn preview_window_centres_the_match() {
    assert_eq!(preview_window(2, 5), (1, 5));
    assert_eq!(preview_window(0, 0), (1, 1));
    assert_eq!(preview_window(500, 1000), (486, 585));
    assert_eq!(preview_window(995, 1000), (901, 1000));
}

#[test]
fn highlight_marks_each_match() {
    let pieces = highlight_segments("Foo bar foo", "foo");
    assert_eq!(
        pieces,
        vec![
            ("Foo".to_string(), true),
            (" bar ".to_string(), false),
            ("foo".to_string(), true),
        ]
    );
    assert_eq!(highlight_segments("abc", ""), vec![("abc".to_string(), false)]);
    assert_eq!(highlight_segments("abc", "z"), vec![("abc".to_string(), false)]);
}

#[test]
fn sanitize_replaces_control_characters() {
    assert_eq!(sanitize_line("a\tb\x1bc\r"), "a    b c ");
    assert_eq!(sanitize_line("plain"), "plain");
}

fn paths(v: &[&str]) -> Vec<String> {
    v.iter().map(|s| s.to_string()).collect()
}

#[test]
fn tree_guides_follow_later_siblings() {
    let w = paths(&["/r/a", "/r/a/x", "/r/a/y", "/r/b"]);
    assert_eq!(tree_indent(&w, 0, "/r"), " ");
    assert_eq!(tree_indent(&w, 1, "/r"), "  ├── ");
    assert_eq!(tree_indent(&w, 2, "/r"), "  ├── ");
    assert_eq!(tree_indent(&w, 3, "/r"), " ");
    let last = paths(&["/r/a", "/r/a/x"]);
    assert_eq!(tree_indent(&last, 1, "/r"), "  └── ");
    let deep = paths(&["/r/a/b/c", "/r/z"]);
    assert_eq!(tree_indent(&deep, 0, "/r"), "  │     └── ");
    let outside = paths(&["/elsewhere/q"]);
    assert_eq!(tree_indent(&outside, 0, "/r"), "");
    assert_eq!(tree_indent(&paths(&["/r"]), 0, "/r"), "");
}

#[test]
fn layout_stacks_the_bars_when_they_fit() {
    let area = Area { x: 2, y: 3, width: 80, height: 24 };
    let l = build_layout(area, true, true);
    assert_eq!(l.tab_bar, Area { x: 2, y: 3, width: 80, height: 1 });
    assert_eq!(l.main_area, Area { x: 2, y: 4, width: 80, height: 19 });
    assert_eq!(l.status_bar, Area { x: 2, y: 23, width: 80, height: 1 });
    assert_eq!(l.search_bar, Area { x: 2, y: 24, width: 80, height: 3 });
}

#[test]
fn layout_parts_stay_in_order_when_the_bars_do_not_fit() {
    let area = Area { x: 0, y: 0, width: 30, height: 2 };
    let l = build_layout(area, true, true);
    let parts = [l.tab_bar, l.main_area, l.status_bar, l.search_bar];
    for p in parts.iter() {
        assert_eq!((p.x, p.width), (0, 30));
    }
    for w in parts.windows(2) {
        assert!(w[0].y + w[0].height <= w[1].y);
    }
    assert!(parts[3].y + parts[3].height <= 2);
}

#[test]
fn centred_areas_round_each_edge_half_up() {
    assert_eq!(
        centered_rect(51, 33, Area { x: 0, y: 0, width: 101, height: 37 }),
        Area { x: 24, y: 12, width: 52, height: 12 }
    );
    assert_eq!(
        centered_rect(50, 50, Area { x: 0, y: 0, width: 10, height: 10 }),
        Area { x: 3, y: 3, width: 5, height: 5 }
    );
}

#[test]
fn panes_split_the_main_area_in_halves() {
    let (left, right) = panes(Area { x: 1, y: 2, width: 81, height: 20 });
    assert_eq!(left, Area { x: 1, y: 2, width: 41, height: 20 });
    assert_eq!(right, Area { x: 42, y: 2, width: 40, height: 20 });
}

#[test]
fn modification_times_read_as_date_and_time() {
    for nanos in [0i128, 1_700_000_000_123_456_789, -1, -86_400_000_000_000] {
        let t: Vec<char> = ascope::ui::clock::mtime_text(nanos).chars().collect();
        assert_eq!(t.len(), 19);
        for (i, c) in t.iter().enumerate() {
            match i {
                4 | 7 => assert_eq!(*c, '-'),
                10 => assert_eq!(*c, ' '),
                13 | 16 => assert_eq!(*c, ':'),
                _ => assert!(c.is_ascii_digit()),
            }
        }
    }
}
