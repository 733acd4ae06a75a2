use vstd::prelude::*;
use crate::app::input::{
    delete_key_post, help_key_post, list_modal_key_post, main_action, main_action_spec,
    open_confirm_key_post, rename_key_post, Effect,
};
use crate::app::search::{label_matches, match_view, matches_view, overlay_list, palette_results};
use crate::app::{AppState, ModalMode, SearchOverlayMode};
use crate::keys::{
    cycle_down, cycle_up, insert_char_at, inserted, remove_char_at, row_after, row_before, Key,
    KeyPress,
};
use crate::project::detector::commands_view;
use crate::text::{chars_of, lowercase, string_of};

verus! {

/// The state leaves the directory view, tabs, marks and settings alone.
pub open spec fn keeps_view(o: AppState, f: AppState) -> bool {
    &&& f.navigation == o.navigation
    &&& f.all_entries == o.all_entries
    &&& f.current_path == o.current_path
    &&& f.tabs == o.tabs
    &&& f.active_tab == o.active_tab
    &&& f.selected_paths == o.selected_paths
    &&& f.config == o.config
}

/// The highlighted row after moving up over `len` rows (none moves in an empty list).
pub open spec fn up_row(i: usize, len: nat) -> usize {
    if len > 0 {
        row_before(i as nat, len) as usize
    } else {
        i
    }
}

/// The highlighted row after moving down over `len` rows.
pub open spec fn down_row(i: usize, len: nat) -> usize {
    if len > 0 {
        row_after(i as nat, len) as usize
    } else {
        i
    }
}

// ----- plugin overlay -----

/// The plugin overlay after its input became `input`: refiltered, highlight on top.
pub open spec fn plugin_refiltered(o: AppState, f: AppState, input: Seq<char>) -> bool {
    &&& f.plugin_modal_input@ == input
    &&& f.plugin_modal_filtered_items@ == if lowercase(input).len() == 0 {
        o.plugin_modal_items@
    } else {
        label_matches(o.plugin_modal_items@, lowercase(input))
    }
    &&& f.plugin_modal_selected_index == 0
    &&& f.modal_mode == o.modal_mode
}

/// What `handle_plugin_modal_key` does.
pub open spec fn plugin_modal_key_post(o: AppState, f: AppState, key: KeyPress, e: Effect) -> bool {
    let n = o.plugin_modal_filtered_items.len() as nat;
    &&& match key.code {
        Key::Esc => f.modal_mode == ModalMode::NoModal && e is PluginDismiss,
        Key::Up => f.plugin_modal_selected_index == up_row(o.plugin_modal_selected_index, n)
            && e is Nothing,
        Key::Char('p') if key.ctrl => f.plugin_modal_selected_index == up_row(
            o.plugin_modal_selected_index,
            n,
        ) && e is Nothing,
        Key::Down => f.plugin_modal_selected_index == down_row(o.plugin_modal_selected_index, n)
            && e is Nothing,
        Key::Char('n') if key.ctrl => f.plugin_modal_selected_index == down_row(
            o.plugin_modal_selected_index,
            n,
        ) && e is Nothing,
        Key::Enter => f.modal_mode == ModalMode::NoModal && (if o.plugin_modal_selected_index < n {
            e matches Effect::PluginSelect { value } && value@
                == o.plugin_modal_filtered_items[o.plugin_modal_selected_index as int].value@
        } else {
            e is PluginDismiss
        }),
        Key::Backspace => plugin_refiltered(
            o,
            f,
            if o.plugin_modal_input@.len() > 0 {
                o.plugin_modal_input@.drop_last()
            } else {
                o.plugin_modal_input@
            },
        ) && e is Nothing,
        Key::Char(c) => plugin_refiltered(o, f, o.plugin_modal_input@.push(c)) && e is Nothing,
        _ => f == o && e is Nothing,
    }
    &&& f.plugin_modal_items == o.plugin_modal_items
    &&& keeps_view(o, f)
}

// ----- command palette -----

/// The palette closed, its input emptied and focused again.
pub open spec fn palette_closed(f: AppState) -> bool {
    &&& f.modal_mode == ModalMode::NoModal
    &&& f.command_palette_input@.len() == 0
    &&& f.command_palette_cursor_index == 0
    &&& f.command_palette_focused
}

/// The palette after its input became `input` with the cursor at `cursor`.
pub open spec fn palette_edited(o: AppState, f: AppState, input: Seq<char>, cursor: usize) -> bool {
    &&& f.command_palette_input@ == input
    &&& f.command_palette_cursor_index == cursor
    &&& commands_view(f.command_palette_results@) == palette_results(
        input,
        o.command_palette_candidates@,
    )
    &&& f.command_palette_selected_index == 0
    &&& f.modal_mode == o.modal_mode
}

/// What Enter does in the palette: run the highlighted command, if it has one.
pub open spec fn palette_enter(o: AppState, f: AppState, e: Effect) -> bool {
    let i = o.command_palette_selected_index as int;
    if i < o.command_palette_results.len() && o.command_palette_results[i].cmd@.len() > 0 {
        let cmd = o.command_palette_results[i].cmd@;
        &&& palette_closed(f)
        &&& if cmd == "reload_plugins"@ {
            e is ReloadPlugins
        } else {
            e matches Effect::RunCommand { cmd: c } && c@ == cmd
        }
    } else {
        f == o && e is Nothing
    }
}

/// What a typing key does in the palette's input at the cursor.
pub open spec fn palette_typing(o: AppState, f: AppState, key: KeyPress) -> bool {
    let input = o.command_palette_input@;
    let c = o.command_palette_cursor_index;
    match key.code {
        Key::Left => f.command_palette_cursor_index == (if c > 0 {
            (c - 1) as usize
        } else {
            c
        }) && f.command_palette_input == o.command_palette_input,
        Key::Right => f.command_palette_cursor_index == (if c < input.len() {
            (c + 1) as usize
        } else {
            c
        }) && f.command_palette_input == o.command_palette_input,
        Key::Backspace => if c > 0 && c - 1 < input.len() {
            palette_edited(o, f, input.remove(c - 1), (c - 1) as usize)
        } else {
            f == o
        },
        Key::Delete => if c < input.len() {
            palette_edited(o, f, input.remove(c as int), c)
        } else {
            f == o
        },
        Key::Char(ch) => palette_edited(o, f, inserted(input, c as nat, ch), (c + 1) as usize),
        _ => true,
    }
}

/// What `handle_palette_key` does.
pub open spec fn palette_key_post(o: AppState, f: AppState, key: KeyPress, e: Effect) -> bool {
    let n = o.command_palette_results.len() as nat;
    let sel = o.command_palette_selected_index;
    &&& if o.command_palette_focused {
        match key.code {
            Key::Esc => palette_closed(f) && e is Nothing,
            Key::Up => !f.command_palette_focused && f.command_palette_selected_index == up_row(
                sel,
                n,
            ) && e is Nothing,
            Key::Char('p') if key.ctrl => !f.command_palette_focused
                && f.command_palette_selected_index == up_row(sel, n) && e is Nothing,
            Key::Down => !f.command_palette_focused && f.command_palette_selected_index
                == down_row(sel, n) && e is Nothing,
            Key::Char('n') if key.ctrl => !f.command_palette_focused
                && f.command_palette_selected_index == down_row(sel, n) && e is Nothing,
            Key::Left | Key::Right | Key::Backspace | Key::Delete => palette_typing(o, f, key)
                && f.command_palette_focused == o.command_palette_focused && e is Nothing,
            Key::Char(_) => if !key.ctrl && !key.alt {
                palette_typing(o, f, key) && f.command_palette_focused && e is Nothing
            } else {
                f == o && e is Nothing
            },
            Key::Enter => palette_enter(o, f, e),
            _ => f == o && e is Nothing,
        }
    } else {
        match key.code {
            Key::Esc => palette_closed(f) && e is Nothing,
            Key::Up | Key::Char('k') => (if sel == 0 {
                f.command_palette_focused && f.command_palette_selected_index == sel
            } else {
                f.command_palette_selected_index == up_row(sel, n) && !f.command_palette_focused
            }) && e is Nothing,
            Key::Down | Key::Char('j') => f.command_palette_selected_index == down_row(sel, n)
                && !f.command_palette_focused && e is Nothing,
            Key::Char('i') | Key::Char('a') | Key::Insert | Key::Backspace | Key::Delete
            | Key::Left | Key::Right => f.command_palette_focused && f.command_palette_input
                == o.command_palette_input && f.command_palette_selected_index == sel
                && e is Nothing,
            Key::Char(_) => if !key.ctrl && !key.alt {
                palette_typing(o, f, key) && f.command_palette_focused && e is Nothing
            } else {
                f == o && e is Nothing
            },
            Key::Enter => palette_enter(o, f, e),
            _ => f == o && e is Nothing,
        }
    }
    &&& f.command_palette_candidates == o.command_palette_candidates
    &&& keeps_view(o, f)
}

// ----- search overlay -----

/// The overlay closed, its input and results emptied and focused again.
pub open spec fn overlay_closed(f: AppState) -> bool {
    &&& f.modal_mode == ModalMode::NoModal
    &&& f.search_overlay_input@.len() == 0
    &&& f.search_overlay_results.len() == 0
    &&& f.search_overlay_cursor_index == 0
    &&& f.search_overlay_focused
}

/// The overlay after its input or mode changed: relisted, highlight on top,
/// and a content search asked for in content mode.
pub open spec fn overlay_refreshed(o: AppState, f: AppState, input: Seq<char>, mode: SearchOverlayMode, e: Effect) -> bool {
    &&& f.search_overlay_input@ == input
    &&& f.search_overlay_mode == mode
    &&& matches_view(f.search_overlay_results@) == overlay_list(input, mode, o.all_entries@)
    &&& f.search_overlay_selected_index == 0
    &&& f.modal_mode == o.modal_mode
    &&& if input.len() > 0 && mode == SearchOverlayMode::LiveGrep {
        e matches Effect::Search { query, dir } && query@ == input && dir@ == o.current_path@
    } else {
        e is Nothing
    }
}

/// What Enter does in the overlay: open the highlighted result.
pub open spec fn overlay_enter(o: AppState, f: AppState, e: Effect) -> bool {
    let i = o.search_overlay_selected_index as int;
    if i < o.search_overlay_results.len() {
        &&& overlay_closed(f)
        &&& e matches Effect::Edit { path, line } && path@ == o.search_overlay_results[i].path@
            && line == o.search_overlay_results[i].line_number
    } else {
        f == o && e is Nothing
    }
}

/// The other content mode.
pub open spec fn other_mode(m: SearchOverlayMode) -> SearchOverlayMode {
    match m {
        SearchOverlayMode::FuzzyFiles => SearchOverlayMode::LiveGrep,
        SearchOverlayMode::LiveGrep => SearchOverlayMode::FuzzyFiles,
    }
}

/// What a typing key does in the overlay's input at the cursor.
pub open spec fn overlay_typing(o: AppState, f: AppState, key: KeyPress, e: Effect) -> bool {
    let input = o.search_overlay_input@;
    let c = o.search_overlay_cursor_index;
    let m = o.search_overlay_mode;
    match key.code {
        Key::Left => f.search_overlay_cursor_index == (if c > 0 {
            (c - 1) as usize
        } else {
            c
        }) && f.search_overlay_input == o.search_overlay_input && e is Nothing,
        Key::Right => f.search_overlay_cursor_index == (if c < input.len() {
            (c + 1) as usize
        } else {
            c
        }) && f.search_overlay_input == o.search_overlay_input && e is Nothing,
        Key::Backspace => if c > 0 && c - 1 < input.len() {
            overlay_refreshed(o, f, input.remove(c - 1), m, e) && f.search_overlay_cursor_index
                == c - 1
        } else {
            f == o && e is Nothing
        },
        Key::Delete => if c < input.len() {
            overlay_refreshed(o, f, input.remove(c as int), m, e) && f.search_overlay_cursor_index
                == c
        } else {
            f == o && e is Nothing
        },
        Key::Char(ch) => overlay_refreshed(o, f, inserted(input, c as nat, ch), m, e)
            && f.search_overlay_cursor_index == c + 1,
        _ => true,
    }
}

/// What `handle_overlay_key` does.
pub open spec fn overlay_key_post(o: AppState, f: AppState, key: KeyPress, e: Effect) -> bool {
    let n = o.search_overlay_results.len() as nat;
    let sel = o.search_overlay_selected_index;
    &&& if o.search_overlay_focused {
        match key.code {
            Key::Esc => overlay_closed(f) && e is Nothing,
            Key::Tab => overlay_refreshed(
                o,
                f,
                o.search_overlay_input@,
                other_mode(o.search_overlay_mode),
                e,
            ),
            Key::Up => !f.search_overlay_focused && f.search_overlay_selected_index == up_row(sel, n)
                && e is Nothing,
            Key::Down => !f.search_overlay_focused && f.search_overlay_selected_index == down_row(
                sel,
                n,
            ) && e is Nothing,
            Key::Char('p') if key.ctrl => !f.search_overlay_focused
                && f.search_overlay_selected_index == up_row(sel, n) && e is Nothing,
            Key::Char('n') if key.ctrl => !f.search_overlay_focused
                && f.search_overlay_selected_index == down_row(sel, n) && e is Nothing,
            Key::Char('k') if key.ctrl => !f.search_overlay_focused
                && f.search_overlay_selected_index == up_row(sel, n) && e is Nothing,
            Key::Char('j') if key.ctrl => !f.search_overlay_focused
                && f.search_overlay_selected_index == down_row(sel, n) && e is Nothing,
            Key::Left | Key::Right | Key::Backspace | Key::Delete => overlay_typing(o, f, key, e)
                && f.search_overlay_focused == o.search_overlay_focused,
            Key::Enter => overlay_enter(o, f, e),
            Key::Char(_) => if !key.ctrl && !key.alt {
                overlay_typing(o, f, key, e) && f.search_overlay_focused
            } else {
                f == o && e is Nothing
            },
            _ => f == o && e is Nothing,
        }
    } else {
        match key.code {
            Key::Esc => overlay_closed(f) && e is Nothing,
            Key::Tab => overlay_refreshed(
                o,
                f,
                o.search_overlay_input@,
                other_mode(o.search_overlay_mode),
                e,
            ),
            Key::Up | Key::Char('k') => f.search_overlay_selected_index == up_row(sel, n)
                && f.search_overlay_focused == o.search_overlay_focused && e is Nothing,
            Key::Down | Key::Char('j') => f.search_overlay_selected_index == down_row(sel, n)
                && f.search_overlay_focused == o.search_overlay_focused && e is Nothing,
            Key::Char('p') if key.ctrl => f.search_overlay_selected_index == up_row(sel, n)
                && f.search_overlay_focused == o.search_overlay_focused && e is Nothing,
            Key::Char('n') if key.ctrl => f.search_overlay_selected_index == down_row(sel, n)
                && f.search_overlay_focused == o.search_overlay_focused && e is Nothing,
            Key::Char('i') | Key::Char('a') | Key::Left | Key::Right | Key::Backspace
            | Key::Delete => f.search_overlay_focused && f.search_overlay_input
                == o.search_overlay_input && f.search_overlay_selected_index == sel && e is Nothing,
            Key::Enter => overlay_enter(o, f, e),
            Key::Char(_) => if !key.ctrl && !key.alt {
                overlay_typing(o, f, key, e) && f.search_overlay_focused
            } else {
                f == o && e is Nothing
            },
            _ => f == o && e is Nothing,
        }
    }
    &&& keeps_view(o, f)
}

impl AppState {
    /// Handles a key in a plugin's overlay: dismiss it, move the highlight,
    /// choose the highlighted item, or edit the filter.
    pub fn handle_plugin_modal_key(&mut self, key: KeyPress) -> (e: Effect)
        ensures
            plugin_modal_key_post(*old(self), *final(self), key, e),
    {
        let n = self.plugin_modal_filtered_items.len();
        match key.code {
            Key::Esc => {
                self.modal_mode = ModalMode::NoModal;
                Effect::PluginDismiss
            },
            Key::Up => {
                self.plugin_modal_selected_index = cycle_up(self.plugin_modal_selected_index, n);
                Effect::Nothing
            },
            Key::Char('p') if key.ctrl => {
                self.plugin_modal_selected_index = cycle_up(self.plugin_modal_selected_index, n);
                Effect::Nothing
            },
            Key::Down => {
                self.plugin_modal_selected_index = cycle_down(self.plugin_modal_selected_index, n);
                Effect::Nothing
            },
            Key::Char('n') if key.ctrl => {
                self.plugin_modal_selected_index = cycle_down(self.plugin_modal_selected_index, n);
                Effect::Nothing
            },
            Key::Enter => {
                let i = self.plugin_modal_selected_index;
                self.modal_mode = ModalMode::NoModal;
                if i < n {
                    Effect::PluginSelect { value: self.plugin_modal_filtered_items[i].value.clone() }
                } else {
                    Effect::PluginDismiss
                }
            },
            Key::Backspace => {
                let mut v = chars_of(self.plugin_modal_input.as_str());
                if v.len() > 0 {
                    let _ = v.pop();
                }
                self.plugin_modal_input = string_of(&v);
                self.update_plugin_modal_filtering();
                Effect::Nothing
            },
            Key::Char(c) => {
                let mut v = chars_of(self.plugin_modal_input.as_str());
                v.push(c);
                self.plugin_modal_input = string_of(&v);
                self.update_plugin_modal_filtering();
                Effect::Nothing
            },
            _ => Effect::Nothing,
        }
    }

    fn close_palette(&mut self)
        ensures
            palette_closed(*final(self)),
            final(self).command_palette_results == old(self).command_palette_results,
            final(self).command_palette_candidates == old(self).command_palette_candidates,
            keeps_view(*old(self), *final(self)),
    {
        self.modal_mode = ModalMode::NoModal;
        self.command_palette_input = String::new();
        self.command_palette_cursor_index = 0;
        self.command_palette_focused = true;
    }

    fn palette_enter_key(&mut self) -> (e: Effect)
        ensures
            palette_enter(*old(self), *final(self), e),
            final(self).command_palette_candidates == old(self).command_palette_candidates,
            keeps_view(*old(self), *final(self)),
    {
        let i = self.command_palette_selected_index;
        if i < self.command_palette_results.len() && !self.command_palette_results[i].cmd.as_str().is_empty() {
            let cmd = self.command_palette_results[i].cmd.clone();
            self.close_palette();
            let reload = chars_of(cmd.as_str());
            if crate::text::same_chars(&reload, &chars_of("reload_plugins")) {
                Effect::ReloadPlugins
            } else {
                Effect::RunCommand { cmd }
            }
        } else {
            Effect::Nothing
        }
    }

    fn palette_type(&mut self, key: KeyPress)
        requires
            old(self).command_palette_cursor_index < usize::MAX,
        ensures
            palette_typing(*old(self), *final(self), key),
            final(self).command_palette_focused == old(self).command_palette_focused,
            final(self).command_palette_selected_index == old(self).command_palette_selected_index
                || final(self).command_palette_selected_index == 0,
            (key.code is Left || key.code is Right) ==> final(self).command_palette_selected_index
                == old(self).command_palette_selected_index && final(self).modal_mode == old(
                self).modal_mode,
            final(self).command_palette_candidates == old(self).command_palette_candidates,
            keeps_view(*old(self), *final(self)),
    {
        let c = self.command_palette_cursor_index;
        let count = chars_of(self.command_palette_input.as_str()).len();
        match key.code {
            Key::Left => {
                if c > 0 {
                    self.command_palette_cursor_index = c - 1;
                }
            },
            Key::Right => {
                if c < count {
                    self.command_palette_cursor_index = c + 1;
                }
            },
            Key::Backspace => {
                if c > 0 {
                    match remove_char_at(self.command_palette_input.as_str(), c - 1) {
                        Some(t) => {
                            self.command_palette_input = t;
                            self.command_palette_cursor_index = c - 1;
                            self.update_command_palette_results();
                        },
                        None => {},
                    }
                }
            },
            Key::Delete => {
                match remove_char_at(self.command_palette_input.as_str(), c) {
                    Some(t) => {
                        self.command_palette_input = t;
                        self.update_command_palette_results();
                    },
                    None => {},
                }
            },
            Key::Char(ch) => {
                self.command_palette_input = insert_char_at(self.command_palette_input.as_str(), c, ch);
                self.command_palette_cursor_index = c + 1;
                self.update_command_palette_results();
            },
            _ => {},
        }
    }

    /// Handles a key in the command palette: typing edits the input at the
    /// cursor and refreshes the commands; arrows move the highlight; Enter
    /// runs the highlighted command.
    pub fn handle_palette_key(&mut self, key: KeyPress) -> (e: Effect)
        requires
            old(self).command_palette_cursor_index < usize::MAX,
        ensures
            palette_key_post(*old(self), *final(self), key, e),
    {
        let n = self.command_palette_results.len();
        let sel = self.command_palette_selected_index;
        if self.command_palette_focused {
            match key.code {
                Key::Esc => {
                    self.close_palette();
                    Effect::Nothing
                },
                Key::Up => {
                    self.command_palette_focused = false;
                    self.command_palette_selected_index = cycle_up(sel, n);
                    Effect::Nothing
                },
                Key::Char('p') if key.ctrl => {
                    self.command_palette_focused = false;
                    self.command_palette_selected_index = cycle_up(sel, n);
                    Effect::Nothing
                },
                Key::Down => {
                    self.command_palette_focused = false;
                    self.command_palette_selected_index = cycle_down(sel, n);
                    Effect::Nothing
                },
                Key::Char('n') if key.ctrl => {
                    self.command_palette_focused = false;
                    self.command_palette_selected_index = cycle_down(sel, n);
                    Effect::Nothing
                },
                Key::Left | Key::Right | Key::Backspace | Key::Delete => {
                    self.palette_type(key);
                    Effect::Nothing
                },
                Key::Char(_) => {
                    if !key.ctrl && !key.alt {
                        self.palette_type(key);
                    }
                    Effect::Nothing
                },
                Key::Enter => self.palette_enter_key(),
                _ => Effect::Nothing,
            }
        } else {
            match key.code {
                Key::Esc => {
                    self.close_palette();
                    Effect::Nothing
                },
                Key::Up | Key::Char('k') => {
                    if sel == 0 {
                        self.command_palette_focused = true;
                    } else {
                        self.command_palette_selected_index = cycle_up(sel, n);
                    }
                    Effect::Nothing
                },
                Key::Down | Key::Char('j') => {
                    self.command_palette_selected_index = cycle_down(sel, n);
                    Effect::Nothing
                },
                Key::Char('i') | Key::Char('a') | Key::Insert | Key::Backspace | Key::Delete
                | Key::Left | Key::Right => {
                    self.command_palette_focused = true;
                    Effect::Nothing
                },
                Key::Char(_) => {
                    if !key.ctrl && !key.alt {
                        self.command_palette_focused = true;
                        self.palette_type(key);
                    }
                    Effect::Nothing
                },
                Key::Enter => self.palette_enter_key(),
                _ => Effect::Nothing,
            }
        }
    }

    fn close_overlay(&mut self)
        ensures
            overlay_closed(*final(self)),
            keeps_view(*old(self), *final(self)),
    {
        self.modal_mode = ModalMode::NoModal;
        self.search_overlay_input = String::new();
        self.search_overlay_results = Vec::new();
        self.search_overlay_cursor_index = 0;
        self.search_overlay_focused = true;
    }

    fn refresh_overlay(&mut self) -> (e: Effect)
        ensures
            overlay_refreshed(
                *old(self),
                *final(self),
                old(self).search_overlay_input@,
                old(self).search_overlay_mode,
                e,
            ),
            final(self).search_overlay_cursor_index == old(self).search_overlay_cursor_index,
            final(self).search_overlay_focused == old(self).search_overlay_focused,
            keeps_view(*old(self), *final(self)),
    {
        match self.update_search_overlay_results() {
            Some(q) => Effect::Search { query: q.query, dir: q.dir },
            None => Effect::Nothing,
        }
    }

    fn overlay_enter_key(&mut self) -> (e: Effect)
        ensures
            overlay_enter(*old(self), *final(self), e),
            keeps_view(*old(self), *final(self)),
    {
        let i = self.search_overlay_selected_index;
        if i < self.search_overlay_results.len() {
            let path = self.search_overlay_results[i].path.clone();
            let line = self.search_overlay_results[i].line_number;
            self.close_overlay();
            Effect::Edit { path, line }
        } else {
            Effect::Nothing
        }
    }

    fn overlay_type(&mut self, key: KeyPress) -> (e: Effect)
        requires
            old(self).search_overlay_cursor_index < usize::MAX,
        ensures
            overlay_typing(*old(self), *final(self), key, e),
            final(self).search_overlay_focused == old(self).search_overlay_focused,
            (key.code is Left || key.code is Right) ==> final(self).search_overlay_selected_index
                == old(self).search_overlay_selected_index,
            keeps_view(*old(self), *final(self)),
    {
        let c = self.search_overlay_cursor_index;
        let count = chars_of(self.search_overlay_input.as_str()).len();
        match key.code {
            Key::Left => {
                if c > 0 {
                    self.search_overlay_cursor_index = c - 1;
                }
                Effect::Nothing
            },
            Key::Right => {
                if c < count {
                    self.search_overlay_cursor_index = c + 1;
                }
                Effect::Nothing
            },
            Key::Backspace => {
                if c > 0 {
                    match remove_char_at(self.search_overlay_input.as_str(), c - 1) {
                        Some(t) => {
                            self.search_overlay_input = t;
                            self.search_overlay_cursor_index = c - 1;
                            self.refresh_overlay()
                        },
                        None => Effect::Nothing,
                    }
                } else {
                    Effect::Nothing
                }
            },
            Key::Delete => {
                match remove_char_at(self.search_overlay_input.as_str(), c) {
                    Some(t) => {
                        self.search_overlay_input = t;
                        self.refresh_overlay()
                    },
                    None => Effect::Nothing,
                }
            },
            Key::Char(ch) => {
                self.search_overlay_input = insert_char_at(self.search_overlay_input.as_str(), c, ch);
                self.search_overlay_cursor_index = c + 1;
                self.refresh_overlay()
            },
            _ => Effect::Nothing,
        }
    }

    fn toggle_overlay_mode(&mut self) -> (e: Effect)
        ensures
            overlay_refreshed(
                *old(self),
                *final(self),
                old(self).search_overlay_input@,
                other_mode(old(self).search_overlay_mode),
                e,
            ),
            keeps_view(*old(self), *final(self)),
    {
        self.search_overlay_mode = match self.search_overlay_mode {
            SearchOverlayMode::FuzzyFiles => SearchOverlayMode::LiveGrep,
            SearchOverlayMode::LiveGrep => SearchOverlayMode::FuzzyFiles,
        };
        self.refresh_overlay()
    }

    /// Handles a key in the search overlay: typing edits the input at the
    /// cursor and relists; Tab switches between file names and contents;
    /// arrows move the highlight; Enter opens the highlighted result.
    pub fn handle_overlay_key(&mut self, key: KeyPress) -> (e: Effect)
        requires
            old(self).search_overlay_cursor_index < usize::MAX,
        ensures
            overlay_key_post(*old(self), *final(self), key, e),
    {
        let n = self.search_overlay_results.len();
        let sel = self.search_overlay_selected_index;
        if self.search_overlay_focused {
            match key.code {
                Key::Esc => {
                    self.close_overlay();
                    Effect::Nothing
                },
                Key::Tab => self.toggle_overlay_mode(),
                Key::Up => {
                    self.search_overlay_focused = false;
                    self.search_overlay_selected_index = cycle_up(sel, n);
                    Effect::Nothing
                },
                Key::Down => {
                    self.search_overlay_focused = false;
                    self.search_overlay_selected_index = cycle_down(sel, n);
                    Effect::Nothing
                },
                Key::Char('p') if key.ctrl => {
                    self.search_overlay_focused = false;
                    self.search_overlay_selected_index = cycle_up(sel, n);
                    Effect::Nothing
                },
                Key::Char('n') if key.ctrl => {
                    self.search_overlay_focused = false;
                    self.search_overlay_selected_index = cycle_down(sel, n);
                    Effect::Nothing
                },
                Key::Char('k') if key.ctrl => {
                    self.search_overlay_focused = false;
                    self.search_overlay_selected_index = cycle_up(sel, n);
                    Effect::Nothing
                },
                Key::Char('j') if key.ctrl => {
                    self.search_overlay_focused = false;
                    self.search_overlay_selected_index = cycle_down(sel, n);
                    Effect::Nothing
                },
                Key::Left | Key::Right | Key::Backspace | Key::Delete => self.overlay_type(key),
                Key::Enter => self.overlay_enter_key(),
                Key::Char(_) => {
                    if !key.ctrl && !key.alt {
                        self.overlay_type(key)
                    } else {
                        Effect::Nothing
                    }
                },
                _ => Effect::Nothing,
            }
        } else {
            match key.code {
                Key::Esc => {
                    self.close_overlay();
                    Effect::Nothing
                },
                Key::Tab => self.toggle_overlay_mode(),
                Key::Up | Key::Char('k') => {
                    self.search_overlay_selected_index = cycle_up(sel, n);
                    Effect::Nothing
                },
                Key::Down | Key::Char('j') => {
                    self.search_overlay_selected_index = cycle_down(sel, n);
                    Effect::Nothing
                },
                Key::Char('p') if key.ctrl => {
                    self.search_overlay_selected_index = cycle_up(sel, n);
                    Effect::Nothing
                },
                Key::Char('n') if key.ctrl => {
                    self.search_overlay_selected_index = cycle_down(sel, n);
                    Effect::Nothing
                },
                Key::Char('i') | Key::Char('a') | Key::Left | Key::Right | Key::Backspace
                | Key::Delete => {
                    self.search_overlay_focused = true;
                    Effect::Nothing
                },
                Key::Enter => self.overlay_enter_key(),
                Key::Char(_) => {
                    if !key.ctrl && !key.alt {
                        self.search_overlay_focused = true;
                        self.overlay_type(key)
                    } else {
                        Effect::Nothing
                    }
                },
                _ => Effect::Nothing,
            }
        }
    }
}

} // verus!

verus! {

/// The query as typed so far (empty when none is set).
pub open spec fn typed_query(s: AppState) -> Seq<char> {
    match s.navigation.query_view() {
        Some(t) => t,
        None => Seq::empty(),
    }
}

/// What `handle_search_key` does.
pub open spec fn search_key_post(o: AppState, f: AppState, key: KeyPress) -> bool {
    let q = typed_query(o);
    &&& match key.code {
        Key::Esc | Key::Enter => f.search_mode == !o.search_mode && f.navigation == o.navigation,
        Key::Backspace => {
            let shorter = if q.len() > 0 {
                q.drop_last()
            } else {
                q
            };
            if shorter.len() > 0 {
                f.navigation.query_view() == Some(shorter)
            } else {
                f.navigation.query_view() is None
            }
        },
        Key::Char('/') if q.len() == 0 => f.search_mode == !o.search_mode && f.navigation
            == o.navigation,
        Key::Char(c) => f.navigation.query_view() == Some(q.push(c)),
        _ => f == o,
    }
    &&& f.all_entries == o.all_entries
    &&& f.current_path == o.current_path
    &&& f.tabs == o.tabs
    &&& f.active_tab == o.active_tab
    &&& f.selected_paths == o.selected_paths
}

impl AppState {
    /// Handles a key while the search line is open: close it, or edit the query.
    pub fn handle_search_key(&mut self, key: KeyPress)
        ensures
            search_key_post(*old(self), *final(self), key),
    {
        match key.code {
            Key::Esc | Key::Enter => {
                self.toggle_search_mode();
            },
            Key::Backspace => {
                self.pop_search_char();
            },
            Key::Char(c) => {
                let empty = match self.navigation.filter_query() {
                    Some(t) => t.as_str().is_empty(),
                    None => true,
                };
                if c == '/' && empty {
                    self.toggle_search_mode();
                } else {
                    self.push_search_char(c);
                }
            },
            _ => {},
        }
    }

    /// Routes a key press that no plugin binding took: to the help screen,
    /// the rename line, the open modal, the search line, or else the main view.
    /// `help_rows` is the number of rows of the help screen.
    pub fn handle_key(&mut self, key: KeyPress, help_rows: usize) -> (e: Effect)
        requires
            old(self).command_palette_cursor_index < usize::MAX,
            old(self).search_overlay_cursor_index < usize::MAX,
        ensures
            old(self).show_help ==> help_key_post(*old(self), *final(self), key, help_rows)
                && e is Nothing,
            !old(self).show_help && old(self).rename_mode ==> rename_key_post(
                *old(self),
                *final(self),
                key,
                e,
            ),
            !old(self).show_help && !old(self).rename_mode && old(self).modal_mode
                != ModalMode::NoModal ==> match old(self).modal_mode {
                ModalMode::PluginOverlay => plugin_modal_key_post(*old(self), *final(self), key, e),
                ModalMode::CommandPalette => palette_key_post(*old(self), *final(self), key, e),
                ModalMode::SearchOverlay => overlay_key_post(*old(self), *final(self), key, e),
                ModalMode::DeleteConfirmation => delete_key_post(*old(self), *final(self), key, e),
                ModalMode::SizeDetails => e is Nothing && if key.code is Esc {
                    final(self).modal_mode == ModalMode::NoModal && final(self).size_popup_path is None
                } else {
                    *final(self) == *old(self)
                },
                ModalMode::OpenConfirmation => open_confirm_key_post(*old(self), *final(self), key, e),
                _ => list_modal_key_post(*old(self), *final(self), key, e),
            },
            !old(self).show_help && !old(self).rename_mode && old(self).modal_mode
                == ModalMode::NoModal && old(self).search_mode ==> search_key_post(
                *old(self),
                *final(self),
                key,
            ) && e is Nothing,
            !old(self).show_help && !old(self).rename_mode && old(self).modal_mode
                == ModalMode::NoModal && !old(self).search_mode ==> *final(self) == *old(self) && (
            e matches Effect::Main(a) && a == main_action_spec(key)),
            final(self).tabs == old(self).tabs,
            final(self).active_tab == old(self).active_tab,
            final(self).selected_paths == old(self).selected_paths,
    {
        if self.show_help {
            self.handle_help_key(key, help_rows);
            return Effect::Nothing;
        }
        if self.rename_mode {
            return self.handle_rename_key(key);
        }
        match self.modal_mode {
            ModalMode::NoModal => {},
            ModalMode::PluginOverlay => {
                return self.handle_plugin_modal_key(key);
            },
            ModalMode::CommandPalette => {
                return self.handle_palette_key(key);
            },
            ModalMode::SearchOverlay => {
                return self.handle_overlay_key(key);
            },
            ModalMode::DeleteConfirmation => {
                return self.handle_delete_key(key);
            },
            ModalMode::SizeDetails => {
                if key.code == Key::Esc {
                    self.close_size_details_popup();
                }
                return Effect::Nothing;
            },
            ModalMode::OpenConfirmation => {
                return self.handle_open_confirm_key(key);
            },
            _ => {
                return self.handle_list_modal_key(key);
            },
        }
        if self.search_mode {
            self.handle_search_key(key);
            return Effect::Nothing;
        }
        Effect::Main(main_action(key))
    }
}

} // verus!
