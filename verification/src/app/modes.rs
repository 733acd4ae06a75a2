use vstd::prelude::*;
use crate::app::load::{candidate_list, palette_candidates};
use crate::app::search::{file_entries, file_result, matches_view};
use crate::app::{AppState, ModalMode, SearchOverlayMode};
use crate::config::session::SessionConfig;
use crate::fs::walker::{DirEntry, EntryType};
use crate::project::detector::{commands_view, DetectedCommand};

verus! {

/// Where going back from the main view leads.
#[derive(Debug, Clone, PartialEq, Eq)]
pub enum BackStep {
    /// The query was cleared; the directory stays.
    ClearedQuery,
    /// Show this directory, the parent of the current one.
    Parent(String),
    /// The current directory has no parent.
    Stay,
}

/// What opening the selected entry takes.
#[derive(Debug, Clone, PartialEq, Eq)]
pub enum OpenStep {
    /// Show the directory.
    Directory(String),
    /// Edit the file, searching for the query when one is typed.
    Edit { path: String, search: Option<String> },
    /// Nothing is selected, or the entry is neither a file nor a directory.
    Nothing,
}

impl AppState {
    /// Opens the bookmarks or recent-directories modal on its first row,
    /// with nothing typed.
    pub fn open_list_modal(&mut self, mode: ModalMode)
        ensures
            final(self).modal_input@.len() == 0,
            *final(self) == (AppState {
                modal_mode: mode,
                modal_selected_index: 0,
                modal_input: final(self).modal_input,
                ..*old(self)
            }),
    {
        self.modal_mode = mode;
        self.modal_selected_index = 0;
        self.modal_input = String::new();
    }

    /// Opens the search overlay in `mode` with an empty input: it lists every
    /// file, the first highlighted.
    pub fn open_search_overlay(&mut self, mode: SearchOverlayMode)
        ensures
            final(self).search_overlay_input@.len() == 0,
            matches_view(final(self).search_overlay_results@) == file_entries(old(self).all_entries@).map_values(
                |e: DirEntry| file_result(e),
            ),
            *final(self) == (AppState {
                modal_mode: ModalMode::SearchOverlay,
                search_overlay_mode: mode,
                search_overlay_input: final(self).search_overlay_input,
                search_overlay_results: final(self).search_overlay_results,
                search_overlay_selected_index: 0,
                search_overlay_cursor_index: 0,
                ..*old(self)
            }),
    {
        self.modal_mode = ModalMode::SearchOverlay;
        self.search_overlay_mode = mode;
        self.search_overlay_input = String::new();
        self.search_overlay_selected_index = 0;
        self.search_overlay_cursor_index = 0;
        let _ = self.update_search_overlay_results();
    }

    /// Opens the command palette with nothing typed, offering the commands
    /// `detected` in the workspace, those of `session`, and the reload of the
    /// plugins; all of them are listed, the first highlighted.
    pub fn open_command_palette(&mut self, detected: Vec<DetectedCommand>, session: &SessionConfig)
        ensures
            final(self).modal_mode == ModalMode::CommandPalette,
            final(self).command_palette_input@.len() == 0,
            commands_view(final(self).command_palette_candidates@) == candidate_list(detected@, session.commands@),
            commands_view(final(self).command_palette_results@) == candidate_list(detected@, session.commands@),
            final(self).command_palette_selected_index == 0,
            final(self).command_palette_cursor_index == 0,
            final(self).command_palette_focused,
            final(self).navigation == old(self).navigation,
            final(self).tabs == old(self).tabs,
            final(self).active_tab == old(self).active_tab,
            final(self).selected_paths == old(self).selected_paths,
            final(self).config == old(self).config,
            *final(self) == (AppState {
                command_palette_candidates: final(self).command_palette_candidates,
                command_palette_cursor_index: final(self).command_palette_cursor_index,
                command_palette_focused: final(self).command_palette_focused,
                command_palette_input: final(self).command_palette_input,
                command_palette_selected_index: final(self).command_palette_selected_index,
                command_palette_results: final(self).command_palette_results,
                modal_mode: final(self).modal_mode,
                ..*old(self)
            }),
    {
        self.modal_mode = ModalMode::CommandPalette;
        self.command_palette_input = String::new();
        self.command_palette_selected_index = 0;
        self.command_palette_cursor_index = 0;
        self.command_palette_focused = true;
        self.command_palette_candidates = palette_candidates(detected, session);
        self.update_command_palette_results();
    }

    /// Opens the help screen on its first row.
    pub fn open_help(&mut self)
        ensures
            *final(self) == (AppState { show_help: true, help_selected_index: 0, ..*old(self) }),
    {
        self.show_help = true;
        self.help_selected_index = 0;
    }

    /// Goes back from the main view: a typed query is cleared first; without
    /// one, the parent directory is the one to show.
    pub fn go_back(&mut self) -> (r: BackStep)
        ensures
            match old(self).navigation.query_view() {
                Some(q) => if q.len() > 0 {
                    &&& r == BackStep::ClearedQuery
                    &&& final(self).navigation.query_view() is None
                } else {
                    *final(self) == *old(self) && match r {
                        BackStep::Parent(p) => crate::paths::parent(old(self).current_path@) == Some(p@),
                        BackStep::Stay => crate::paths::parent(old(self).current_path@) is None,
                        BackStep::ClearedQuery => false,
                    }
                },
                None => *final(self) == *old(self) && match r {
                    BackStep::Parent(p) => crate::paths::parent(old(self).current_path@) == Some(p@),
                    BackStep::Stay => crate::paths::parent(old(self).current_path@) is None,
                    BackStep::ClearedQuery => false,
                },
            },
            final(self).current_path == old(self).current_path,
            final(self).tabs == old(self).tabs,
            final(self).active_tab == old(self).active_tab,
            final(self).selected_paths == old(self).selected_paths,
            final(self).config == old(self).config,
            *final(self) == (AppState {
                navigation: final(self).navigation,
                ..*old(self)
            }),
    {
        let typed = match self.navigation.filter_query() {
            Some(q) => !q.as_str().is_empty(),
            None => false,
        };
        if typed {
            self.clear_search();
            return BackStep::ClearedQuery;
        }
        match self.navigate_out_target() {
            Some(p) => BackStep::Parent(p),
            None => BackStep::Stay,
        }
    }

    /// What opening the selected entry takes: a directory is shown, a file
    /// is edited (searching for the typed query, if any).
    pub fn open_selected(&self) -> (r: OpenStep)
        ensures
            match self.navigation.selection_view() {
                Some(e) => if e.entry_type == EntryType::Directory {
                    r matches OpenStep::Directory(p) && p@ == e.path@
                } else if e.entry_type == EntryType::File {
                    r matches OpenStep::Edit { path, search } && path@ == e.path@ && match self.navigation.query_view() {
                        Some(q) => if q.len() > 0 {
                            search matches Some(s) && s@ == q
                        } else {
                            search is None
                        },
                        None => search is None,
                    }
                } else {
                    r == OpenStep::Nothing
                },
                None => r == OpenStep::Nothing,
            },
    {
        match self.navigation.current_selection() {
            Some(e) => {
                if e.entry_type == EntryType::Directory {
                    OpenStep::Directory(e.path)
                } else if e.entry_type == EntryType::File {
                    let search = match self.navigation.filter_query() {
                        Some(q) => if q.as_str().is_empty() {
                            None
                        } else {
                            Some(q)
                        },
                        None => None,
                    };
                    OpenStep::Edit { path: e.path, search }
                } else {
                    OpenStep::Nothing
                }
            },
            None => OpenStep::Nothing,
        }
    }
}

} // verus!
