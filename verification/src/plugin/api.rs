use vstd::prelude::*;
use crate::app::tabs::holds_view;
use crate::app::{AppState, ModalMode, PluginOverlayItem};
use crate::fs::walker::{DirEntry, EntryType};
use crate::paths::{
    file_name, file_name_chars, file_name_or_empty, file_name_string, join, join_path, parent, parent_chars,
};
use crate::plugin::commands::PluginCommand;
use crate::text::{chars_of, push_str, same_chars, string_of, to_uppercase, uppercase};

verus! {

/// What carrying out a plugin's command takes outside the state.
#[derive(Debug, Clone, PartialEq, Eq)]
pub enum PluginEffect {
    /// Show the directory.
    Jump(String),
    /// Run the shell command in the background.
    Spawn(String),
    /// Nothing.
    Idle,
}

/// A plugin notification: the message, after its level in upper case and
/// brackets when a level is given.
pub open spec fn notice_spec(msg: Seq<char>, level: Option<Seq<char>>) -> Seq<char> {
    match level {
        Some(l) => "["@ + uppercase(l) + "] "@ + msg,
        None => msg,
    }
}

/// Formats a plugin notification.
pub fn notice_text(msg: &str, level: Option<&str>) -> (r: String)
    ensures
        r@ == notice_spec(
            msg@,
            match level {
                Some(l) => Some(l@),
                None => None,
            },
        ),
{
    match level {
        Some(l) => {
            let mut out: Vec<char> = Vec::new();
            push_str(&mut out, "[");
            let up = to_uppercase(l);
            push_str(&mut out, up.as_str());
            push_str(&mut out, "] ");
            push_str(&mut out, msg);
            string_of(&out)
        },
        None => String::from_str(msg),
    }
}

/// A path a plugin names: kept when absolute, else taken below `base`.
pub open spec fn plugin_path(base: Seq<char>, p: Seq<char>) -> Seq<char> {
    if p.len() > 0 && p[0] == '/' {
        p
    } else {
        join(base, p)
    }
}

/// The first entry of `all` whose file name is `name`.
pub open spec fn first_named(all: Seq<DirEntry>, name: Seq<char>) -> Option<nat>
    decreases all.len(),
{
    if all.len() == 0 {
        None
    } else {
        match first_named(all.drop_last(), name) {
            Some(i) => Some(i),
            None => if file_name(all.last().path@) == Some(name) {
                Some((all.len() - 1) as nat)
            } else {
                None
            },
        }
    }
}

proof fn lemma_first_named_extend(all: Seq<DirEntry>, name: Seq<char>, k: int)
    requires
        0 <= k <= all.len(),
        first_named(all.subrange(0, k), name) is Some,
    ensures
        first_named(all, name) == first_named(all.subrange(0, k), name),
    decreases all.len() - k,
{
    if k < all.len() {
        assert(all.subrange(0, k + 1).drop_last() =~= all.subrange(0, k));
        lemma_first_named_extend(all, name, k + 1);
    } else {
        assert(all.subrange(0, k) =~= all);
    }
}

/// The position of the first entry of `all` named `name`.
pub fn position_named(all: &Vec<DirEntry>, name: &str) -> (r: Option<usize>)
    ensures
        match r {
            Some(i) => first_named(all@, name@) == Some(i as nat),
            None => first_named(all@, name@) is None,
        },
{
    let n = chars_of(name);
    let mut i: usize = 0;
    while i < all.len()
        invariant
            i <= all.len(),
            n@ == name@,
            first_named(all@.subrange(0, i as int), name@) is None,
        decreases all.len() - i,
    {
        assert(all@.subrange(0, i + 1).drop_last() =~= all@.subrange(0, i as int));
        let hit = match file_name_chars(&chars_of(all[i].path.as_str())) {
            Some(f) => same_chars(&f, &n),
            None => false,
        };
        if hit {
            proof {
                lemma_first_named_extend(all@, name@, i + 1);
            }
            return Some(i);
        }
        i = i + 1;
    }
    assert(all@.subrange(0, all.len() as int) =~= all@);
    None
}

/// What a tab list shows of each tab: its number (from one), path and name.
pub open spec fn tab_summary(s: AppState) -> Seq<(usize, Seq<char>, Seq<char>)> {
    Seq::new(
        s.tabs.len() as nat,
        |i: int| ((i + 1) as usize, s.tabs[i].current_path@, file_name_or_empty(s.tabs[i].current_path@)),
    )
}

impl AppState {
    /// What a plugin's command asks for: showing a directory, or running a
    /// shell command.
    pub fn execute_plugin_command(&self, cmd: &PluginCommand) -> (r: PluginEffect)
        ensures
            match *cmd {
                PluginCommand::FocusPath { path } => r == PluginEffect::Jump(path),
                PluginCommand::ExecShell { cmd } => r == PluginEffect::Spawn(cmd),
                PluginCommand::NoCommand => r == PluginEffect::Idle,
            },
    {
        match cmd {
            PluginCommand::FocusPath { path } => PluginEffect::Jump(path.clone()),
            PluginCommand::ExecShell { cmd } => PluginEffect::Spawn(cmd.clone()),
            PluginCommand::NoCommand => PluginEffect::Idle,
        }
    }

    /// A path named by a plugin, resolved against the current directory.
    pub fn plugin_target_path(&self, path: &str) -> (r: String)
        ensures
            r@ == plugin_path(self.current_path@, path@),
    {
        let p = chars_of(path);
        if p.len() > 0 && p[0] == '/' {
            String::from_str(path)
        } else {
            join_path(self.current_path.as_str(), path)
        }
    }

    /// Opens a plugin's overlay with `title` and `items`, unfiltered, the
    /// first item highlighted.
    pub fn open_plugin_modal(&mut self, title: String, items: Vec<PluginOverlayItem>)
        ensures
            final(self).modal_mode == ModalMode::PluginOverlay,
            final(self).plugin_modal_title == title,
            final(self).plugin_modal_items@ == items@,
            final(self).plugin_modal_filtered_items@ == items@,
            final(self).plugin_modal_input@.len() == 0,
            final(self).plugin_modal_selected_index == 0,
            final(self).navigation == old(self).navigation,
            final(self).tabs == old(self).tabs,
            final(self).active_tab == old(self).active_tab,
            final(self).selected_paths == old(self).selected_paths,
            final(self).config == old(self).config,
            *final(self) == (AppState {
                modal_mode: final(self).modal_mode,
                plugin_modal_filtered_items: final(self).plugin_modal_filtered_items,
                plugin_modal_input: final(self).plugin_modal_input,
                plugin_modal_items: final(self).plugin_modal_items,
                plugin_modal_selected_index: final(self).plugin_modal_selected_index,
                plugin_modal_title: final(self).plugin_modal_title,
                ..*old(self)
            }),
    {
        let mut copy: Vec<PluginOverlayItem> = Vec::new();
        let mut i: usize = 0;
        while i < items.len()
            invariant
                i <= items.len(),
                copy@ == items@.subrange(0, i as int),
            decreases items.len() - i,
        {
            copy.push(PluginOverlayItem { label: items[i].label.clone(), value: items[i].value.clone() });
            i = i + 1;
            assert(copy@ =~= items@.subrange(0, i as int));
        }
        assert(items@.subrange(0, items.len() as int) =~= items@);
        self.modal_mode = ModalMode::PluginOverlay;
        self.plugin_modal_title = title;
        self.plugin_modal_items = items;
        self.plugin_modal_filtered_items = copy;
        self.plugin_modal_input = String::new();
        self.plugin_modal_selected_index = 0;
    }

    /// Closes a plugin's overlay.
    pub fn close_plugin_modal(&mut self)
        ensures
            *final(self) == (AppState { modal_mode: ModalMode::NoModal, ..*old(self) }),
    {
        self.modal_mode = ModalMode::NoModal;
    }

    /// Closes the tab a plugin names by its number (from one), or the active
    /// tab when it names none.
    pub fn plugin_close_tab(&mut self, id: Option<usize>)
        requires
            old(self).wf(),
        ensures
            final(self).wf(),
            match id {
                Some(v) => if v > 0 && old(self).tabs.len() > 1 && v - 1 < old(self).tabs.len() {
                    final(self).tabs@ == old(self).tabs@.remove(v - 1)
                } else {
                    *final(self) == *old(self)
                },
                None => if old(self).tabs.len() > 1 {
                    final(self).tabs@ == old(self).tabs@.remove(old(self).active_tab as int)
                } else {
                    *final(self) == *old(self)
                },
            },
            *final(self) == (AppState {
                tabs: final(self).tabs,
                active_tab: final(self).active_tab,
                all_entries: final(self).all_entries,
                current_path: final(self).current_path,
                git_ctx: final(self).git_ctx,
                navigation: final(self).navigation,
                scan_applied: final(self).scan_applied,
                ..*old(self)
            }),
    {
        match id {
            Some(v) => {
                if v > 0 {
                    self.close_tab_at(v - 1);
                }
            },
            None => self.close_tab(),
        }
    }

    /// Each tab's number (from one), path and name, for plugins.
    pub fn tab_list(&self) -> (r: Vec<(usize, String, String)>)
        ensures
            r@.map_values(|t: (usize, String, String)| (t.0, t.1@, t.2@)) == tab_summary(*self),
    {
        let mut r: Vec<(usize, String, String)> = Vec::new();
        let mut i: usize = 0;
        while i < self.tabs.len()
            invariant
                i <= self.tabs.len(),
                r@.map_values(|t: (usize, String, String)| (t.0, t.1@, t.2@)) == tab_summary(
                    *self,
                ).subrange(0, i as int),
            decreases self.tabs.len() - i,
        {
            let p = self.tabs[i].current_path.clone();
            let name = file_name_string(p.as_str());
            let ghost before = r@;
            r.push((i + 1, p, name));
            assert(r@.map_values(|t: (usize, String, String)| (t.0, t.1@, t.2@)) =~= before.map_values(
                |t: (usize, String, String)| (t.0, t.1@, t.2@),
            ).push(((i + 1) as usize, p@, name@)));
            i = i + 1;
            assert(r@.map_values(|t: (usize, String, String)| (t.0, t.1@, t.2@)) =~= tab_summary(
                *self,
            ).subrange(0, i as int));
        }
        assert(tab_summary(*self).subrange(0, i as int) =~= tab_summary(*self));
        r
    }

    /// The selected entry as plugins see it: path, name, whether it is a
    /// directory, and size.
    pub fn selection_summary(&self) -> (r: Option<(String, String, bool, u64)>)
        ensures
            match self.navigation.selection_view() {
                Some(e) => r matches Some(t) && t.0@ == e.path@ && t.1@ == file_name_or_empty(
                    e.path@,
                ) && t.2 == (e.entry_type == EntryType::Directory) && t.3 == e.size,
                None => r is None,
            },
    {
        match self.navigation.current_selection() {
            Some(e) => {
                let name = file_name_string(e.path.as_str());
                let is_dir = e.entry_type == EntryType::Directory;
                Some((e.path, name, is_dir, e.size))
            },
            None => None,
        }
    }
}

impl AppState {
    /// Where a plugin's request to navigate to `path` leads, given whether
    /// that path (taken below the current directory when relative) is a file:
    /// a file's directory, with the file's name to select; else `path` itself.
    /// `None` for a file without a parent directory.
    pub fn plugin_navigation(&self, path: &str, is_file: bool) -> (r: Option<(String, Option<String>)>)
        ensures
            ({
                let full = plugin_path(self.current_path@, path@);
                if is_file {
                    match parent(full) {
                        Some(d) => r matches Some((dir, name)) && dir@ == d && (name matches Some(n)
                            && n@ == file_name_or_empty(full)),
                        None => r is None,
                    }
                } else {
                    r matches Some((dir, name)) && dir@ == path@ && name is None
                }
            }),
    {
        if !is_file {
            return Some((String::from_str(path), None));
        }
        let full = self.plugin_target_path(path);
        match parent_chars(&chars_of(full.as_str())) {
            Some(d) => Some((string_of(&d), Some(file_name_string(full.as_str())))),
            None => None,
        }
    }

    /// Puts the cursor on the position of the first known entry named `name`,
    /// if there is one.
    pub fn select_named(&mut self, name: &str)
        ensures
            match first_named(old(self).all_entries@, name@) {
                Some(i) => final(self).navigation.cursor_view() == i,
                None => final(self).navigation.cursor_view() == old(self).navigation.cursor_view(),
            },
            final(self).navigation.items_view() == old(self).navigation.items_view(),
            final(self).navigation.query_view() == old(self).navigation.query_view(),
            final(self).all_entries == old(self).all_entries,
            final(self).current_path == old(self).current_path,
            final(self).tabs == old(self).tabs,
            final(self).active_tab == old(self).active_tab,
            *final(self) == (AppState {
                navigation: final(self).navigation,
                ..*old(self)
            }),
    {
        match position_named(&self.all_entries, name) {
            Some(i) => self.navigation.set_cursor(i),
            None => {},
        }
    }
}

} // verus!
