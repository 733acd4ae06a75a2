use vstd::prelude::*;
use crate::app::tabs::holds_view;
use crate::app::tree::{
    entries_in, entries_inside, expanded_tree, in_dir, lemma_expand_load_collapse, lemma_toggle_twice_rows,
    reselected, row_entries,
};
use crate::app::{AppState, SortMode};
use crate::config::session::{CustomCommand, SessionConfig};
use crate::config::{recorded, strs};
use crate::fs::walker::{copy_entries, DirEntry, EntryType};
use crate::git::GitContext;
use crate::navigation::{entry_order, flipped, fuzzy_hits, score_order};
use crate::paths::{canonical, parent, parent_chars, same_path};
use crate::project::detector::{commands_view, DetectedCommand};
use crate::sort::arranged;
use crate::text::{chars_of, string_of};

verus! {

/// The palette's commands: those detected in the workspace, then the
/// workspace's own (marked as coming from `.ascope.toml`), then reloading
/// the plugins.
pub open spec fn candidate_list(detected: Seq<DetectedCommand>, custom: Seq<CustomCommand>) -> Seq<
    (Seq<char>, Seq<char>, Seq<char>),
> {
    commands_view(detected) + custom.map_values(
        |c: CustomCommand| (c.name@, c.cmd@, ".ascope.toml"@),
    ) + seq![("Reload Plugins"@, "reload_plugins"@, "System"@)]
}

/// Builds the palette's commands from the detected ones and the workspace's own.
pub fn palette_candidates(detected: Vec<DetectedCommand>, session: &SessionConfig) -> (r: Vec<
    DetectedCommand,
>)
    ensures
        commands_view(r@) == candidate_list(detected@, session.commands@),
{
    let mut r = detected;
    let ghost start = commands_view(r@);
    let mut i: usize = 0;
    while i < session.commands.len()
        invariant
            i <= session.commands.len(),
            commands_view(r@) == start + session.commands@.subrange(0, i as int).map_values(
                |c: CustomCommand| (c.name@, c.cmd@, ".ascope.toml"@),
            ),
        decreases session.commands.len() - i,
    {
        let c = &session.commands[i];
        let ghost before = r@;
        r.push(
            DetectedCommand {
                name: c.name.clone(),
                cmd: c.cmd.clone(),
                source: String::from_str(".ascope.toml"),
            },
        );
        assert(commands_view(r@) =~= commands_view(before).push((c.name@, c.cmd@, ".ascope.toml"@)));
        i = i + 1;
        assert(commands_view(r@) =~= start + session.commands@.subrange(0, i as int).map_values(
            |c: CustomCommand| (c.name@, c.cmd@, ".ascope.toml"@),
        ));
    }
    assert(session.commands@.subrange(0, session.commands.len() as int) =~= session.commands@);
    let ghost mid = commands_view(r@);
    r.push(
        DetectedCommand {
            name: String::from_str("Reload Plugins"),
            cmd: String::from_str("reload_plugins"),
            source: String::from_str("System"),
        },
    );
    assert(commands_view(r@) =~= mid + seq![("Reload Plugins"@, "reload_plugins"@, "System"@)]);
    r
}

impl AppState {
    /// Replaces the palette's commands, as after changing directory.
    pub fn rebuild_command_palette_candidates(
        &mut self,
        detected: Vec<DetectedCommand>,
        session: &SessionConfig,
    )
        ensures
            commands_view(final(self).command_palette_candidates@) == candidate_list(
                detected@,
                session.commands@,
            ),
            final(self).command_palette_results == old(self).command_palette_results,
            final(self).navigation == old(self).navigation,
            final(self).tabs == old(self).tabs,
            final(self).active_tab == old(self).active_tab,
            final(self).selected_paths == old(self).selected_paths,
            final(self).config == old(self).config,
    {
        self.command_palette_candidates = palette_candidates(detected, session);
    }

    /// The directory to descend into: the selected entry, when it is one.
    pub fn navigate_in_target(&self) -> (r: Option<String>)
        ensures
            match self.navigation.selection_view() {
                Some(e) => if e.entry_type == EntryType::Directory {
                    r matches Some(p) && p@ == e.path@
                } else {
                    r is None
                },
                None => r is None,
            },
    {
        match self.navigation.current_selection() {
            Some(e) => {
                if e.entry_type == EntryType::Directory {
                    Some(e.path)
                } else {
                    None
                }
            },
            None => None,
        }
    }

    /// The directory to ascend to: the parent of the current one, if any.
    pub fn navigate_out_target(&self) -> (r: Option<String>)
        ensures
            match r {
                Some(p) => parent(self.current_path@) == Some(p@),
                None => parent(self.current_path@) is None,
            },
    {
        match parent_chars(&chars_of(self.current_path.as_str())) {
            Some(v) => Some(string_of(&v)),
            None => None,
        }
    }

    /// Shows the directory `path`, whose direct entries are `entries`, in the
    /// active tab: listed in the current order, cursor on top, nothing
    /// expanded, no query. The visit is recorded and the tab saved; returns
    /// whether the recent list changed (and so needs saving).
    pub fn jump_to_path(&mut self, path: String, entries: Vec<DirEntry>, git_ctx: Option<GitContext>) -> (changed: bool)
        requires
            old(self).wf(),
        ensures
            final(self).wf(),
            final(self).current_path@ == path@,
            final(self).all_entries@ == entries@,
            !final(self).scan_applied,
            final(self).git_ctx == git_ctx,
            arranged(
                entries@,
                entry_order(entries@, old(self).navigation.mode_view()),
                final(self).navigation.items_view(),
            ),
            final(self).navigation.cursor_view() == 0,
            final(self).navigation.expanded_set() == Set::<Seq<char>>::empty(),
            final(self).navigation.query_view() is None,
            final(self).navigation.results_view().len() == 0,
            final(self).navigation.mode_view() == old(self).navigation.mode_view(),
            strs(final(self).config.recent@) == recorded(strs(old(self).config.recent@), path@),
            changed == !crate::config::lists_path(strs(old(self).config.recent@), path@),
            final(self).config.bookmarks == old(self).config.bookmarks,
            final(self).tabs.len() == old(self).tabs.len(),
            final(self).active_tab == old(self).active_tab,
            holds_view(final(self).tabs[final(self).active_tab as int], *final(self)),
            forall|i: int|
                0 <= i < old(self).tabs.len() && i != old(self).active_tab ==> final(self).tabs[i]
                    == old(self).tabs[i],
            final(self).selected_paths == old(self).selected_paths,
            *final(self) == (AppState {
                all_entries: final(self).all_entries,
                current_path: final(self).current_path,
                git_ctx: final(self).git_ctx,
                scan_applied: final(self).scan_applied,
                navigation: final(self).navigation,
                config: final(self).config,
                tabs: final(self).tabs,
                ..*old(self)
            }),
    {
        let copy = copy_entries(&entries);
        self.current_path = path;
        self.navigation.update_items(copy);
        self.navigation.set_cursor(0);
        self.navigation.clear_expanded();
        let none: Vec<DirEntry> = Vec::new();
        self.navigation.set_filter(None, &none);
        self.all_entries = entries;
        self.scan_applied = false;
        self.git_ctx = git_ctx;
        let p = self.current_path.clone();
        let changed = self.record_navigation(p.as_str());
        self.save_active_tab();
        changed
    }

    /// Expands or collapses the selected directory and relists the tree.
    /// Returns the directory when it was just expanded and none of its
    /// children are known yet, so that they can be loaded.
    pub fn toggle_expand(&mut self) -> (load: Option<String>)
        requires
            old(self).wf(),
        ensures
            final(self).wf(),
            match old(self).navigation.selection_view() {
                Some(e) => if e.entry_type == EntryType::Directory {
                    &&& final(self).navigation.expanded_set() == flipped(
                        old(self).navigation.expanded_set(),
                        canonical(e.path@),
                    )
                    &&& if final(self).navigation.expanded_set().contains(canonical(e.path@)) && entries_in(
                        old(self).all_entries@,
                        e.path@,
                    ).len() == 0 {
                        load matches Some(p) && p@ == e.path@
                    } else {
                        load is None
                    }
                } else {
                    load is None && final(self).navigation.expanded_set() == old(self).navigation.expanded_set()
                },
                None => load is None && final(self).navigation.expanded_set() == old(self).navigation.expanded_set(),
            },
            old(self).navigation.query_view() is None ==> {
                &&& final(self).navigation.items_view() == row_entries(final(self).tree_view())
                &&& reselected(
                    old(self).navigation.selection_view(),
                    row_entries(final(self).tree_view()),
                    old(self).navigation.cursor_view(),
                    final(self).navigation.cursor_view(),
                )
            },
            final(self).navigation.query_view() == old(self).navigation.query_view(),
            final(self).navigation.mode_view() == old(self).navigation.mode_view(),
            final(self).all_entries == old(self).all_entries,
            final(self).current_path == old(self).current_path,
            final(self).tabs == old(self).tabs,
            final(self).active_tab == old(self).active_tab,
            final(self).selected_paths == old(self).selected_paths,
            final(self).config == old(self).config,
            *final(self) == (AppState {
                navigation: final(self).navigation,
                ..*old(self)
            }),
    {
        let mut load: Option<String> = None;
        match self.navigation.current_selection() {
            Some(entry) => {
                if entry.entry_type == EntryType::Directory {
                    let _ = self.navigation.toggle_expand_selected();
                    if self.navigation.is_expanded(entry.path.as_str()) {
                        let known = entries_inside(&self.all_entries, entry.path.as_str());
                        if known.len() == 0 {
                            load = Some(entry.path);
                        }
                    }
                }
            },
            None => {},
        }
        self.sync_navigation_items();
        load
    }

    /// Two `toggle_expand` calls on the selected directory `d`, with the
    /// entries listed inside it taken in between by `add_entries` (none when
    /// its children were known), give back the rows shown before. `s0` is
    /// the state before and `s2` the state after, related as the contracts
    /// of those calls relate them; loading happens only when `d` was
    /// collapsed, as `toggle_expand` asks for it only then. Paths are
    /// compared as `Path` compares them.
    pub proof fn lemma_toggle_expand_round_trip(
        s0: AppState,
        s2: AppState,
        d: Seq<char>,
        loaded: Seq<DirEntry>,
    )
        requires
            s0.navigation.query_view() is None,
            s2.navigation.query_view() is None,
            s2.current_path == s0.current_path,
            s2.navigation.mode_view() == s0.navigation.mode_view(),
            s2.navigation.expanded_set() == flipped(
                flipped(s0.navigation.expanded_set(), canonical(d)),
                canonical(d),
            ),
            s2.all_entries@ == s0.all_entries@ + loaded,
            loaded.len() > 0 ==> {
                &&& !s0.navigation.expanded_set().contains(canonical(d))
                &&& !same_path(s0.current_path@, d)
                &&& forall|i: int| 0 <= i < loaded.len() ==> in_dir(#[trigger] loaded[i].path@, d)
            },
        ensures
            s2.visible_rows() == s0.visible_rows(),
    {
        if loaded.len() > 0 {
            lemma_expand_load_collapse(
                s0.all_entries@,
                loaded,
                s0.current_path@,
                s0.navigation.expanded_set(),
                s0.navigation.mode_view(),
                d,
            );
        } else {
            assert(s2.all_entries@ =~= s0.all_entries@);
            lemma_toggle_twice_rows(
                s0.all_entries@,
                s0.current_path@,
                s0.navigation.expanded_set(),
                s0.navigation.mode_view(),
                canonical(d),
            );
        }
    }

    /// Adds newly listed entries (such as the children of a directory just
    /// expanded) and relists the tree.
    pub fn add_entries(&mut self, children: Vec<DirEntry>)
        ensures
            final(self).all_entries@ == old(self).all_entries@ + children@,
            old(self).navigation.query_view() is None ==> {
                &&& final(self).navigation.items_view() == row_entries(final(self).tree_view())
                &&& reselected(
                    old(self).navigation.selection_view(),
                    row_entries(final(self).tree_view()),
                    old(self).navigation.cursor_view(),
                    final(self).navigation.cursor_view(),
                )
            },
            old(self).navigation.query_view() is Some ==> final(self).navigation == old(self).navigation,
            final(self).navigation.expanded_set() == old(self).navigation.expanded_set(),
            final(self).navigation.query_view() == old(self).navigation.query_view(),
            final(self).navigation.mode_view() == old(self).navigation.mode_view(),
            final(self).current_path == old(self).current_path,
            final(self).tabs == old(self).tabs,
            final(self).active_tab == old(self).active_tab,
            final(self).selected_paths == old(self).selected_paths,
            final(self).config == old(self).config,
            *final(self) == (AppState {
                all_entries: final(self).all_entries,
                navigation: final(self).navigation,
                ..*old(self)
            }),
    {
        let mut more = children;
        self.all_entries.append(&mut more);
        self.sync_navigation_items();
    }

    /// Takes in a finished scan of the current directory, once: when it found
    /// entries, they replace the known ones, the direct ones are relisted, the
    /// selection is kept and an active query is run again over them.
    pub fn apply_scan(&mut self, scanned: Vec<DirEntry>)
        ensures
            final(self).scan_applied,
            old(self).scan_applied || scanned.len() == 0 ==> {
                &&& final(self).all_entries == old(self).all_entries
                &&& final(self).navigation == old(self).navigation
            },
            !old(self).scan_applied && scanned.len() > 0 ==> {
                &&& final(self).all_entries@ == scanned@
                &&& final(self).navigation.query_view() == old(self).navigation.query_view()
                &&& final(self).navigation.mode_view() == old(self).navigation.mode_view()
                &&& final(self).navigation.expanded_set() == old(self).navigation.expanded_set()
                &&& old(self).navigation.query_view() is None ==> final(self).navigation.items_view()
                    == row_entries(final(self).tree_view())
                &&& old(self).navigation.query_view() matches Some(q) ==> {
                    &&& arranged(
                        entries_in(scanned@, old(self).current_path@),
                        entry_order(
                            entries_in(scanned@, old(self).current_path@),
                            old(self).navigation.mode_view(),
                        ),
                        final(self).navigation.items_view(),
                    )
                    &&& arranged(
                        fuzzy_hits(scanned@, q),
                        score_order(fuzzy_hits(scanned@, q)),
                        final(self).navigation.results_view(),
                    )
                    &&& final(self).navigation.cursor_view() == 0
                }
            },
            final(self).current_path == old(self).current_path,
            final(self).tabs == old(self).tabs,
            final(self).active_tab == old(self).active_tab,
            final(self).selected_paths == old(self).selected_paths,
            final(self).config == old(self).config,
            *final(self) == (AppState {
                all_entries: final(self).all_entries,
                scan_applied: final(self).scan_applied,
                navigation: final(self).navigation,
                ..*old(self)
            }),
    {
        if !self.scan_applied {
            if scanned.len() > 0 {
                let fresh = entries_inside(&scanned, self.current_path.as_str());
                self.all_entries = scanned;
                let selected = self.navigation.current_selection();
                self.navigation.update_items(fresh);
                self.sync_navigation_items();
                match selected {
                    Some(e) => {
                        self.navigation.select_path(e.path.as_str());
                    },
                    None => {},
                }
                match self.navigation.filter_query() {
                    Some(q) => {
                        self.navigation.set_filter(Some(q), &self.all_entries);
                    },
                    None => {},
                }
            }
            self.scan_applied = true;
        }
    }
}

} // verus!
