use vstd::prelude::*;
use crate::app::actions::opt_text;
use crate::app::{AppState, ModalMode, SearchOverlayMode};
use crate::config::strs;
use crate::keys::{
    cycle_down, cycle_up, insert_char_at, inserted, parse_usize, parsed_usize, remove_char_at,
    row_after, row_before, Key, KeyPress,
};
use crate::text::{chars_of, string_of};

verus! {

/// What the main view does with a key press.
#[derive(Debug, Clone, Copy, PartialEq, Eq, Structural)]
pub enum MainAction {
    Quit,
    ToggleSearch,
    MoveDown,
    MoveUp,
    SizeDetails,
    Open,
    Back,
    CycleSort,
    ToggleExpand,
    NewTab,
    HomeTab,
    NextTab,
    PrevTab,
    CloseTab,
    Bookmark,
    ShowBookmarks,
    ShowRecent,
    ToggleSelect,
    FuzzyOverlay,
    GrepOverlay,
    Yank,
    YankName,
    Cut,
    Paste,
    OpenExternally,
    Delete,
    Rename,
    Palette,
    Help,
    Ignore,
}

/// The action a key press asks of the main view.
pub open spec fn main_action_spec(k: KeyPress) -> MainAction {
    match k.code {
        Key::Char('q') | Key::Esc => MainAction::Quit,
        Key::Char('/') => MainAction::ToggleSearch,
        Key::Down | Key::Char('j') => MainAction::MoveDown,
        Key::Char('k') if k.ctrl => MainAction::SizeDetails,
        Key::Char('K') => MainAction::SizeDetails,
        Key::Up | Key::Char('k') => MainAction::MoveUp,
        Key::Enter => MainAction::Open,
        Key::Backspace | Key::Left | Key::Char('h') => MainAction::Back,
        Key::Char('s') => MainAction::CycleSort,
        Key::Char('e') => MainAction::ToggleExpand,
        Key::Char('t') => MainAction::NewTab,
        Key::Char('T') => MainAction::HomeTab,
        Key::Tab => MainAction::NextTab,
        Key::BackTab => MainAction::PrevTab,
        Key::Char('x') => MainAction::CloseTab,
        Key::Char('m') => MainAction::Bookmark,
        Key::Char('b') => MainAction::ShowBookmarks,
        Key::Char('R') => MainAction::ShowRecent,
        Key::Char(' ') => MainAction::ToggleSelect,
        Key::Char('f') if k.alt => MainAction::FuzzyOverlay,
        Key::Char('g') if k.alt => MainAction::GrepOverlay,
        Key::Char('y') => MainAction::Yank,
        Key::Char('Y') => MainAction::YankName,
        Key::Char('X') => MainAction::Cut,
        Key::Char('v') => MainAction::Paste,
        Key::Char('o') => MainAction::OpenExternally,
        Key::Char('d') => MainAction::Delete,
        Key::Char('r') => MainAction::Rename,
        Key::Char('p') if k.alt => MainAction::Palette,
        Key::Char(':') => MainAction::Palette,
        Key::Char('?') => MainAction::Help,
        _ => MainAction::Ignore,
    }
}

/// The action a key press asks of the main view.
pub fn main_action(k: KeyPress) -> (r: MainAction)
    ensures
        r == main_action_spec(k),
{
    match k.code {
        Key::Char('q') | Key::Esc => MainAction::Quit,
        Key::Char('/') => MainAction::ToggleSearch,
        Key::Down | Key::Char('j') => MainAction::MoveDown,
        Key::Char('k') if k.ctrl => MainAction::SizeDetails,
        Key::Char('K') => MainAction::SizeDetails,
        Key::Up | Key::Char('k') => MainAction::MoveUp,
        Key::Enter => MainAction::Open,
        Key::Backspace | Key::Left | Key::Char('h') => MainAction::Back,
        Key::Char('s') => MainAction::CycleSort,
        Key::Char('e') => MainAction::ToggleExpand,
        Key::Char('t') => MainAction::NewTab,
        Key::Char('T') => MainAction::HomeTab,
        Key::Tab => MainAction::NextTab,
        Key::BackTab => MainAction::PrevTab,
        Key::Char('x') => MainAction::CloseTab,
        Key::Char('m') => MainAction::Bookmark,
        Key::Char('b') => MainAction::ShowBookmarks,
        Key::Char('R') => MainAction::ShowRecent,
        Key::Char(' ') => MainAction::ToggleSelect,
        Key::Char('f') if k.alt => MainAction::FuzzyOverlay,
        Key::Char('g') if k.alt => MainAction::GrepOverlay,
        Key::Char('y') => MainAction::Yank,
        Key::Char('Y') => MainAction::YankName,
        Key::Char('X') => MainAction::Cut,
        Key::Char('v') => MainAction::Paste,
        Key::Char('o') => MainAction::OpenExternally,
        Key::Char('d') => MainAction::Delete,
        Key::Char('r') => MainAction::Rename,
        Key::Char('p') if k.alt => MainAction::Palette,
        Key::Char(':') => MainAction::Palette,
        Key::Char('?') => MainAction::Help,
        _ => MainAction::Ignore,
    }
}

/// What the application must do outside the state after a key press.
#[derive(Debug, Clone)]
pub enum Effect {
    /// Nothing more.
    Nothing,
    /// The bookmarks or the recent list changed and must be saved.
    SaveConfig,
    /// Delete the paths awaiting confirmation, then report with `finish_delete`.
    DeleteTargets,
    /// Perform the rename of `rename_request`, then report with `confirm_rename`.
    Rename,
    /// Show the directory `path`, in a new tab or in the active one.
    OpenDirectory { path: String, new_tab: bool },
    /// Give the plugin overlay's choice to the plugin.
    PluginSelect { value: String },
    /// Tell the plugin its overlay was dismissed.
    PluginDismiss,
    /// Reload the plugins.
    ReloadPlugins,
    /// Run the shell command.
    RunCommand { cmd: String },
    /// Show `path` and open it in the editor, at `line` when known.
    Edit { path: String, line: Option<usize> },
    /// Start a content search.
    Search { query: String, dir: String },
    /// Perform an action of the main view.
    Main(MainAction),
}

/// The number of rows of the bookmarks or recent modal.
pub open spec fn list_len(s: AppState) -> nat {
    match s.modal_mode {
        ModalMode::Bookmarks => s.config.bookmarks.len() as nat,
        ModalMode::Recent => s.config.recent.len() as nat,
        _ => 0,
    }
}

/// The row of the bookmarks or recent modal at `i`.
pub open spec fn list_row(s: AppState, i: int) -> Option<Seq<char>> {
    match s.modal_mode {
        ModalMode::Bookmarks => if 0 <= i < s.config.bookmarks.len() {
            Some(s.config.bookmarks[i]@)
        } else {
            None
        },
        ModalMode::Recent => if 0 <= i < s.config.recent.len() {
            Some(s.config.recent[i]@)
        } else {
            None
        },
        _ => None,
    }
}

/// The row a typed number picks (numbers count from one), if it parses.
pub open spec fn typed_row(input: Seq<char>) -> Option<int> {
    match parsed_usize(input) {
        Some(n) => Some(if n > 0 {
            n - 1
        } else {
            0
        }),
        None => None,
    }
}

/// The directory that Enter opens in the bookmarks or recent modal: the typed
/// row when digits were typed, else the highlighted row.
pub open spec fn list_target(s: AppState) -> Option<Seq<char>> {
    if s.modal_input@.len() > 0 {
        match typed_row(s.modal_input@) {
            Some(i) => list_row(s, i),
            None => None,
        }
    } else {
        list_row(s, s.modal_selected_index as int)
    }
}

/// The highlighted row after the typed number changed to `input`.
pub open spec fn row_for_typed(s: AppState, input: Seq<char>) -> usize {
    match typed_row(input) {
        Some(i) => if i < list_len(s) {
            i as usize
        } else {
            s.modal_selected_index
        },
        None => s.modal_selected_index,
    }
}

/// What `handle_help_key` does.
pub open spec fn help_key_post(o: AppState, f: AppState, key: KeyPress, count: usize) -> bool {
    &&& match key.code {
        Key::Esc | Key::Char('?') => !f.show_help && f.help_selected_index
            == o.help_selected_index,
        Key::Down | Key::Char('j') => f.show_help == o.show_help && (count
            > 0 ==> f.help_selected_index == row_after(
            o.help_selected_index as nat,
            count as nat,
        )) && (count == 0 ==> f.help_selected_index == o.help_selected_index),
        Key::Up | Key::Char('k') => f.show_help == o.show_help && (count
            > 0 ==> f.help_selected_index == row_before(
            o.help_selected_index as nat,
            count as nat,
        )) && (count == 0 ==> f.help_selected_index == o.help_selected_index),
        _ => f == o,
    }
    &&& f.navigation == o.navigation
    &&& f.tabs == o.tabs
    &&& f.active_tab == o.active_tab
    &&& f.selected_paths == o.selected_paths
    &&& f.config == o.config
}

/// What `handle_rename_key` does.
pub open spec fn rename_key_post(o: AppState, f: AppState, key: KeyPress, e: Effect) -> bool {
    &&& match key.code {
        Key::Esc => !f.rename_mode && f.rename_input@.len() == 0 && e
            is Nothing,
        Key::Enter => f == o && e is Rename,
        Key::Backspace => f.rename_input@ == (if o.rename_input@.len()
            > 0 {
            o.rename_input@.drop_last()
        } else {
            o.rename_input@
        }) && f.rename_mode == o.rename_mode && e is Nothing,
        Key::Char(c) => f.rename_input@ == o.rename_input@.push(c)
            && f.rename_mode == o.rename_mode && e is Nothing,
        _ => f == o && e is Nothing,
    }
    &&& f.rename_target == o.rename_target
    &&& f.navigation == o.navigation
    &&& f.tabs == o.tabs
    &&& f.active_tab == o.active_tab
    &&& f.selected_paths == o.selected_paths
    &&& f.config == o.config
}

/// What `handle_delete_key` does.
pub open spec fn delete_key_post(o: AppState, f: AppState, key: KeyPress, e: Effect) -> bool {
    &&& match key.code {
        Key::Esc | Key::Char('n') | Key::Char('N') => f.modal_mode
            == ModalMode::NoModal && f.delete_targets.len() == 0 && e is Nothing,
        Key::Enter | Key::Char('y') | Key::Char('Y') => f == o
            && e is DeleteTargets,
        _ => f == o && e is Nothing,
    }
    &&& f.navigation == o.navigation
    &&& f.tabs == o.tabs
    &&& f.active_tab == o.active_tab
    &&& f.selected_paths == o.selected_paths
    &&& f.config == o.config
}

/// What `handle_open_confirm_key` does.
pub open spec fn open_confirm_key_post(o: AppState, f: AppState, key: KeyPress, e: Effect) -> bool {
    &&& match key.code {
        Key::Esc => f.modal_mode == o.modal_confirm_prev
            && f.modal_target_path is None && e is Nothing,
        Key::Left | Key::Right | Key::Char('h') | Key::Char('l') | Key::Tab => f.modal_confirm_new_tab == !o.modal_confirm_new_tab && f.modal_mode
            == o.modal_mode && e is Nothing,
        Key::Char('s') | Key::Char('n') | Key::Enter => {
            let new_tab = match key.code {
                Key::Char('s') => false,
                Key::Char('n') => true,
                _ => o.modal_confirm_new_tab,
            };
            &&& f.modal_mode == ModalMode::NoModal
            &&& f.modal_input@.len() == 0
            &&& f.modal_target_path is None
            &&& match o.modal_target_path {
                Some(p) => e matches Effect::OpenDirectory { path, new_tab: t } && path@
                    == p@ && t == new_tab,
                None => e is Nothing,
            }
        },
        _ => f == o && e is Nothing,
    }
    &&& f.navigation == o.navigation
    &&& f.tabs == o.tabs
    &&& f.active_tab == o.active_tab
    &&& f.selected_paths == o.selected_paths
    &&& f.config == o.config
}

/// What `handle_list_modal_key` does.
pub open spec fn list_modal_key_post(o: AppState, f: AppState, key: KeyPress, e: Effect) -> bool {
    &&& match key.code {
        Key::Esc => f.modal_mode == ModalMode::NoModal && f.modal_input@.len() == 0 && e is Nothing,
        Key::Up | Key::Char('k') => f.modal_selected_index == if list_len(
            o,
        ) > 0 {
            row_before(o.modal_selected_index as nat, list_len(o)) as usize
        } else {
            o.modal_selected_index
        } && f.modal_mode == o.modal_mode && e is Nothing,
        Key::Down | Key::Char('j') => f.modal_selected_index == if list_len(
            o,
        ) > 0 {
            row_after(o.modal_selected_index as nat, list_len(o)) as usize
        } else {
            o.modal_selected_index
        } && f.modal_mode == o.modal_mode && e is Nothing,
        Key::Enter => match list_target(o) {
            Some(p) => {
                &&& opt_text(f.modal_target_path) == Some(p)
                &&& f.modal_confirm_prev == o.modal_mode
                &&& f.modal_mode == ModalMode::OpenConfirmation
                &&& !f.modal_confirm_new_tab
                &&& e is Nothing
            },
            None => f.modal_mode == ModalMode::NoModal && f.modal_input@.len() == 0 && e is Nothing,
        },
        Key::Char('D') => match o.modal_mode {
            ModalMode::Bookmarks => strs(f.config.bookmarks@) == if o.modal_selected_index < o.config.bookmarks.len() {
                strs(o.config.bookmarks@).remove(
                    o.modal_selected_index as int,
                )
            } else {
                strs(o.config.bookmarks@)
            } && (e is SaveConfig <==> o.modal_selected_index < o.config.bookmarks.len()),
            ModalMode::Recent => strs(f.config.recent@) == if o.modal_selected_index < o.config.recent.len() {
                strs(o.config.recent@).remove(o.modal_selected_index as int)
            } else {
                strs(o.config.recent@)
            } && (e is SaveConfig <==> o.modal_selected_index < o.config.recent.len()),
            _ => f == o && e is Nothing,
        },
        Key::Char(c) => if '0' <= c && c <= '9' {
            &&& f.modal_input@ == o.modal_input@.push(c)
            &&& f.modal_selected_index == row_for_typed(
                o,
                o.modal_input@.push(c),
            )
            &&& e is Nothing
        } else {
            f == o && e is Nothing
        },
        Key::Backspace => {
            let shorter = if o.modal_input@.len() > 0 {
                o.modal_input@.drop_last()
            } else {
                o.modal_input@
            };
            &&& f.modal_input@ == shorter
            &&& f.modal_selected_index == if shorter.len() > 0 {
                row_for_typed(o, shorter)
            } else {
                o.modal_selected_index
            }
            &&& e is Nothing
        },
        _ => f == o && e is Nothing,
    }
    &&& f.navigation == o.navigation
    &&& f.tabs == o.tabs
    &&& f.active_tab == o.active_tab
    &&& f.selected_paths == o.selected_paths
}

impl AppState {
    fn list_length(&self) -> (n: usize)
        ensures
            n == list_len(*self),
    {
        match self.modal_mode {
            ModalMode::Bookmarks => self.config.bookmarks.len(),
            ModalMode::Recent => self.config.recent.len(),
            _ => 0,
        }
    }

    fn list_entry(&self, i: usize) -> (r: Option<String>)
        ensures
            opt_text(r) == list_row(*self, i as int),
    {
        match self.modal_mode {
            ModalMode::Bookmarks => {
                if i < self.config.bookmarks.len() {
                    Some(self.config.bookmarks[i].clone())
                } else {
                    None
                }
            },
            ModalMode::Recent => {
                if i < self.config.recent.len() {
                    Some(self.config.recent[i].clone())
                } else {
                    None
                }
            },
            _ => None,
        }
    }

    fn typed_index(input: &String) -> (r: Option<usize>)
        ensures
            match r {
                Some(i) => typed_row(input@) == Some(i as int),
                None => typed_row(input@) is None,
            },
    {
        match parse_usize(input.as_str()) {
            Some(n) => Some(
                if n > 0 {
                    n - 1
                } else {
                    0
                },
            ),
            None => None,
        }
    }

    /// Handles a key in the help screen: close it, or move its highlight
    /// over the `count` rows.
    pub fn handle_help_key(&mut self, key: KeyPress, count: usize)
        ensures
            help_key_post(*old(self), *final(self), key, count),

    {
        match key.code {
            Key::Esc | Key::Char('?') => {
                self.show_help = false;
            },
            Key::Down | Key::Char('j') => {
                self.help_selected_index = cycle_down(self.help_selected_index, count);
            },
            Key::Up | Key::Char('k') => {
                self.help_selected_index = cycle_up(self.help_selected_index, count);
            },
            _ => {},
        }
    }

    /// Handles a key while renaming: cancel, confirm, or edit the new name.
    pub fn handle_rename_key(&mut self, key: KeyPress) -> (e: Effect)
        ensures
            rename_key_post(*old(self), *final(self), key, e),

    {
        match key.code {
            Key::Esc => {
                self.rename_mode = false;
                self.rename_input = String::new();
                Effect::Nothing
            },
            Key::Enter => Effect::Rename,
            Key::Backspace => {
                let mut v = chars_of(self.rename_input.as_str());
                if v.len() > 0 {
                    let _ = v.pop();
                }
                self.rename_input = string_of(&v);
                Effect::Nothing
            },
            Key::Char(c) => {
                let mut v = chars_of(self.rename_input.as_str());
                v.push(c);
                self.rename_input = string_of(&v);
                Effect::Nothing
            },
            _ => Effect::Nothing,
        }
    }

    /// Handles a key in the delete confirmation: cancel, or confirm.
    pub fn handle_delete_key(&mut self, key: KeyPress) -> (e: Effect)
        ensures
            delete_key_post(*old(self), *final(self), key, e),

    {
        match key.code {
            Key::Esc | Key::Char('n') | Key::Char('N') => {
                self.modal_mode = ModalMode::NoModal;
                self.delete_targets = Vec::new();
                Effect::Nothing
            },
            Key::Enter | Key::Char('y') | Key::Char('Y') => Effect::DeleteTargets,
            _ => Effect::Nothing,
        }
    }

    /// Handles a key in the open confirmation: go back, switch between this
    /// tab and a new one, or open the directory.
    pub fn handle_open_confirm_key(&mut self, key: KeyPress) -> (e: Effect)
        ensures
            open_confirm_key_post(*old(self), *final(self), key, e),

    {
        match key.code {
            Key::Esc => {
                self.modal_mode = self.modal_confirm_prev;
                self.modal_target_path = None;
                Effect::Nothing
            },
            Key::Left | Key::Right | Key::Char('h') | Key::Char('l') | Key::Tab => {
                self.modal_confirm_new_tab = !self.modal_confirm_new_tab;
                Effect::Nothing
            },
            Key::Char('s') | Key::Char('n') | Key::Enter => {
                let new_tab = match key.code {
                    Key::Char('s') => false,
                    Key::Char('n') => true,
                    _ => self.modal_confirm_new_tab,
                };
                let target = self.modal_target_path.take();
                self.modal_mode = ModalMode::NoModal;
                self.modal_input = String::new();
                match target {
                    Some(path) => Effect::OpenDirectory { path, new_tab },
                    None => Effect::Nothing,
                }
            },
            _ => Effect::Nothing,
        }
    }

    /// Handles a key in the bookmarks or recent modal: close it, move the
    /// highlight, pick a row by typing its number, remove the highlighted
    /// row, or ask to open the chosen directory.
    pub fn handle_list_modal_key(&mut self, key: KeyPress) -> (e: Effect)
        ensures
            list_modal_key_post(*old(self), *final(self), key, e),

    {
        match key.code {
            Key::Esc => {
                self.modal_mode = ModalMode::NoModal;
                self.modal_input = String::new();
                Effect::Nothing
            },
            Key::Up | Key::Char('k') => {
                let n = self.list_length();
                self.modal_selected_index = cycle_up(self.modal_selected_index, n);
                Effect::Nothing
            },
            Key::Down | Key::Char('j') => {
                let n = self.list_length();
                self.modal_selected_index = cycle_down(self.modal_selected_index, n);
                Effect::Nothing
            },
            Key::Enter => {
                let target = if self.modal_input.as_str().is_empty() {
                    self.list_entry(self.modal_selected_index)
                } else {
                    match Self::typed_index(&self.modal_input) {
                        Some(i) => self.list_entry(i),
                        None => None,
                    }
                };
                match target {
                    Some(path) => {
                        self.modal_target_path = Some(path);
                        self.modal_confirm_prev = self.modal_mode;
                        self.modal_mode = ModalMode::OpenConfirmation;
                        self.modal_confirm_new_tab = false;
                    },
                    None => {
                        self.modal_mode = ModalMode::NoModal;
                        self.modal_input = String::new();
                    },
                }
                Effect::Nothing
            },
            Key::Char('D') => {
                let removed = match self.modal_mode {
                    ModalMode::Bookmarks => self.remove_bookmark(self.modal_selected_index),
                    ModalMode::Recent => self.remove_recent(self.modal_selected_index),
                    _ => false,
                };
                if removed {
                    Effect::SaveConfig
                } else {
                    Effect::Nothing
                }
            },
            Key::Char(c) => {
                if '0' <= c && c <= '9' {
                    let mut v = chars_of(self.modal_input.as_str());
                    v.push(c);
                    self.modal_input = string_of(&v);
                    match Self::typed_index(&self.modal_input) {
                        Some(i) => {
                            if i < self.list_length() {
                                self.modal_selected_index = i;
                            }
                        },
                        None => {},
                    }
                }
                Effect::Nothing
            },
            Key::Backspace => {
                let mut v = chars_of(self.modal_input.as_str());
                if v.len() > 0 {
                    let _ = v.pop();
                }
                self.modal_input = string_of(&v);
                if v.len() > 0 {
                    match Self::typed_index(&self.modal_input) {
                        Some(i) => {
                            if i < self.list_length() {
                                self.modal_selected_index = i;
                            }
                        },
                        None => {},
                    }
                }
                Effect::Nothing
            },
            _ => Effect::Nothing,
        }
    }
}

} // verus!
