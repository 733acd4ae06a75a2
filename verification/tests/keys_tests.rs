use ascope::app::input::{main_action, Effect, MainAction};
use ascope::app::{AppState, ModalMode};
use ascope::config::Config;
use ascope::keys::{
    cycle_down, cycle_up, insert_char_at, key_label, parse_usize, remove_char_at,
    resolve_plugin_key, BindingHit, Key, KeyPress, KeyResolution,
};

fn press(code: Key) -> KeyPress {
    KeyPress { code, ctrl: false, alt: false }
}

fn ctrl(c: char) -> KeyPress {
    KeyPress { code: Key::Char(c), ctrl: true, alt: false }
}

#[test]
fn key_labels() {
    assert_eq!(key_label('t', true, false), "ctrl-t");
    assert_eq!(key_label('s', false, true), "alt-s");
    assert_eq!(key_label('Z', false, false), "Z");
}

#[test]
fn plugin_sequences_fire_wait_and_pass() {
    let declared = vec!["ctrl-t".to_string(), "g z".to_string()];
    let registered: Vec<String> = vec![];
    let (r, pending) = resolve_plugin_key("", "ctrl-t", &declared, &registered);
    assert_eq!(r, KeyResolution::Fire(BindingHit::Declared(0)));
    assert_eq!(pending, "");

    let (r, pending) = resolve_plugin_key("", "g", &declared, &registered);
    assert_eq!(r, KeyResolution::Wait);
    assert_eq!(pending, "g");

    let (r, pending) = resolve_plugin_key(&pending, "z", &declared, &registered);
    assert_eq!(r, KeyResolution::Fire(BindingHit::Declared(1)));
    assert_eq!(pending, "");

    let (r, pending) = resolve_plugin_key("g", "q", &declared, &registered);
    assert_eq!(r, KeyResolution::Pass);
    assert_eq!(pending, "");
}

#[test]
fn registered_bindings_win_and_case_is_ignored() {
    let declared = vec!["CTRL-T".to_string()];
    let registered = vec![" ctrl-t ".to_string()];
    let (r, _) = resolve_plugin_key("", "ctrl-t", &declared, &registered);
    assert_eq!(r, KeyResolution::Fire(BindingHit::Registered(0)));
}

#[test]
fn a_stale_prefix_falls_back_to_the_key_alone() {
    let declared = vec!["g z".to_string(), "x".to_string()];
    let (r, pending) = resolve_plugin_key("g", "x", &declared, &vec![]);
    assert_eq!(r, KeyResolution::Fire(BindingHit::Declared(1)));
    assert_eq!(pending, "");
}

#[test]
fn parsing_numbers_like_std() {
    assert_eq!(parse_usize("12"), Some(12));
    assert_eq!(parse_usize("+7"), Some(7));
    assert_eq!(parse_usize("007"), Some(7));
    assert_eq!(parse_usize(""), None);
    assert_eq!(parse_usize("+"), None);
    assert_eq!(parse_usize("1a"), None);
    assert_eq!(parse_usize("-1"), None);
    assert_eq!(parse_usize("99999999999999999999999"), None);
    assert_eq!(parse_usize("18446744073709551615"), "18446744073709551615".parse::<usize>().ok());
}

#[test]
fn editing_at_the_cursor() {
    assert_eq!(insert_char_at("héllo", 1, 'X'), "hXéllo");
    assert_eq!(insert_char_at("ab", 9, 'c'), "abc");
    assert_eq!(remove_char_at("héllo", 1), Some("hllo".to_string()));
    assert_eq!(remove_char_at("ab", 2), None);
    let inserted = insert_char_at("abc", 1, 'z');
    assert_eq!(remove_char_at(&inserted, 1), Some("abc".to_string()));
}

#[test]
fn cycling_rows() {
    assert_eq!(cycle_down(2, 3), 0);
    assert_eq!(cycle_up(0, 3), 2);
    assert_eq!(cycle_up(cycle_down(1, 4), 4), 1);
    assert_eq!(cycle_down(5, 0), 5);
    assert_eq!(cycle_up(usize::MAX, 7), (usize::MAX - 1) % 7);
}

#[test]
fn main_keys_map_to_actions() {
    assert_eq!(main_action(press(Key::Char('q'))), MainAction::Quit);
    assert_eq!(main_action(press(Key::Esc)), MainAction::Quit);
    assert_eq!(main_action(ctrl('k')), MainAction::SizeDetails);
    assert_eq!(main_action(press(Key::Char('k'))), MainAction::MoveUp);
    assert_eq!(main_action(press(Key::Char('f'))), MainAction::Ignore);
    assert_eq!(main_action(KeyPress { code: Key::Char('f'), ctrl: false, alt: true }), MainAction::FuzzyOverlay);
    assert_eq!(main_action(press(Key::BackTab)), MainAction::PrevTab);
    assert_eq!(main_action(press(Key::Char(':'))), MainAction::Palette);
}

fn state() -> AppState {
    let mut s = AppState::new("/w".to_string(), vec![], None, Config::new(), vec![]);
    s.config.bookmarks = vec!["/a".to_string(), "/b".to_string(), "/c".to_string()];
    s
}

#[test]
fn bookmark_modal_keys() {
    let mut s = state();
    s.modal_mode = ModalMode::Bookmarks;
    s.handle_key(press(Key::Up), 28);
    assert_eq!(s.modal_selected_index, 2);
    s.handle_key(press(Key::Char('2')), 28);
    assert_eq!(s.modal_selected_index, 1);
    assert_eq!(s.modal_input, "2");
    s.handle_key(press(Key::Enter), 28);
    assert_eq!(s.modal_mode, ModalMode::OpenConfirmation);
    assert_eq!(s.modal_target_path, Some("/b".to_string()));
    s.handle_key(press(Key::Tab), 28);
    assert!(s.modal_confirm_new_tab);
    match s.handle_key(press(Key::Enter), 28) {
        Effect::OpenDirectory { path, new_tab } => {
            assert_eq!(path, "/b");
            assert!(new_tab);
        }
        other => panic!("unexpected {:?}", other),
    }
    assert_eq!(s.modal_mode, ModalMode::NoModal);
}

#[test]
fn removing_a_bookmark_from_the_modal() {
    let mut s = state();
    s.modal_mode = ModalMode::Bookmarks;
    s.modal_selected_index = 2;
    assert!(matches!(s.handle_key(press(Key::Char('D')), 28), Effect::SaveConfig));
    assert_eq!(s.config.bookmarks, vec!["/a".to_string(), "/b".to_string()]);
    assert_eq!(s.modal_selected_index, 1);
}

#[test]
fn palette_typing_and_running() {
    let mut s = state();
    s.modal_mode = ModalMode::CommandPalette;
    for c in "!echo hi".chars() {
        s.handle_key(press(Key::Char(c)), 28);
    }
    assert_eq!(s.command_palette_input, "!echo hi");
    assert_eq!(s.command_palette_cursor_index, 8);
    s.handle_key(press(Key::Left), 28);
    s.handle_key(press(Key::Backspace), 28);
    assert_eq!(s.command_palette_input, "!echo i");
    match s.handle_key(press(Key::Enter), 28) {
        Effect::RunCommand { cmd } => assert_eq!(cmd, "echo i"),
        other => panic!("unexpected {:?}", other),
    }
    assert_eq!(s.modal_mode, ModalMode::NoModal);
    assert_eq!(s.command_palette_input, "");
}

#[test]
fn search_line_keys_edit_the_query() {
    let mut s = state();
    s.search_mode = true;
    s.handle_key(press(Key::Char('a')), 28);
    s.handle_key(press(Key::Char('b')), 28);
    assert_eq!(s.navigation.filter_query(), Some("ab".to_string()));
    s.handle_key(press(Key::Backspace), 28);
    assert_eq!(s.navigation.filter_query(), Some("a".to_string()));
    s.handle_key(press(Key::Esc), 28);
    assert!(!s.search_mode);
    assert!(matches!(s.handle_key(press(Key::Char('j')), 28), Effect::Main(MainAction::MoveDown)));
}

#[test]
fn help_keys_scroll_and_close() {
    let mut s = state();
    s.show_help = true;
    s.handle_key(press(Key::Up), 28);
    assert_eq!(s.help_selected_index, 27);
    s.handle_key(press(Key::Char('?')), 28);
    assert!(!s.show_help);
}
