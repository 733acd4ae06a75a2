use vstd::prelude::*;
use crate::app::{AppState, ModalMode};
use crate::config::{recorded, strs};
use crate::paths::{file_name, file_name_chars, file_name_or_empty, join, join_path, parent, parent_chars};
use crate::text::{chars_of, decimal, push_chars, push_decimal, push_str, string_of};

verus! {

/// The paths a batch operation acts on: the marked paths, or else the
/// selected entry's path.
pub open spec fn batch_targets(s: AppState) -> Seq<Seq<char>> {
    if s.selected_paths.len() > 0 {
        strs(s.selected_paths@)
    } else {
        match s.navigation.selection_view() {
            Some(e) => seq![e.path@],
            None => Seq::empty(),
        }
    }
}

/// The texts of `ts` separated by line breaks.
pub open spec fn joined_lines(ts: Seq<Seq<char>>) -> Seq<char>
    decreases ts.len(),
{
    if ts.len() == 0 {
        Seq::empty()
    } else if ts.len() == 1 {
        ts[0]
    } else {
        joined_lines(ts.drop_last()) + "\n"@ + ts.last()
    }
}

/// The file names of `ts` (empty where a path has none).
pub open spec fn names_of(ts: Seq<Seq<char>>) -> Seq<Seq<char>> {
    ts.map_values(|t: Seq<char>| file_name_or_empty(t))
}

/// How a notification names `ts`: the one file's name, or the item count.
pub open spec fn items_label(ts: Seq<Seq<char>>) -> Seq<char> {
    if ts.len() == 1 {
        file_name_or_empty(ts[0])
    } else {
        decimal(ts.len()) + " items"@
    }
}

/// The copy or move of each path that has a file name, into `dir` under that name.
pub open spec fn paste_jobs(ts: Seq<Seq<char>>, dir: Seq<char>) -> Seq<(Seq<char>, Seq<char>)>
    decreases ts.len(),
{
    if ts.len() == 0 {
        Seq::empty()
    } else {
        let rest = paste_jobs(ts.drop_last(), dir);
        match file_name(ts.last()) {
            Some(n) => rest.push((ts.last(), join(dir, n))),
            None => rest,
        }
    }
}

/// The notification after pasting: how many items were copied (or moved)
/// and, when some failed, how many.
pub open spec fn paste_message(moving: bool, success: nat, errors: nat) -> Seq<char> {
    let verb = if moving {
        "Moved "@
    } else {
        "Pasted "@
    };
    if errors > 0 {
        verb + decimal(success) + " items with "@ + decimal(errors) + " errors"@
    } else {
        verb + decimal(success) + " items successfully"@
    }
}

/// The notification after deleting `count` items of which `success` went.
pub open spec fn delete_message(count: nat, success: nat, errors: nat) -> Seq<char> {
    if errors > 0 {
        "Deleted "@ + decimal(success) + "/"@ + decimal(count) + " items ("@ + decimal(errors)
            + " errors)"@
    } else {
        "Deleted "@ + decimal(success) + " items successfully"@
    }
}

/// The rename that confirming would perform: the target, and its new path
/// next to it under the typed name.
pub open spec fn rename_plan(s: AppState) -> Option<(Seq<char>, Seq<char>)> {
    match s.rename_target {
        Some(t) => if s.rename_input@.len() > 0 {
            match parent(t@) {
                Some(par) => Some((t@, join(par, s.rename_input@))),
                None => None,
            }
        } else {
            None
        },
        None => None,
    }
}

fn copy_strings_of(v: &Vec<String>) -> (r: Vec<String>)
    ensures
        strs(r@) == strs(v@),
{
    let r = crate::config::copy_strings(v);
    r
}

fn label_text(ts: &Vec<String>) -> (r: Vec<char>)
    ensures
        r@ == items_label(strs(ts@)),
{
    let mut out: Vec<char> = Vec::new();
    if ts.len() == 1 {
        match file_name_chars(&chars_of(ts[0].as_str())) {
            Some(n) => {
                out = n;
            },
            None => {},
        }
    } else {
        push_decimal(&mut out, ts.len() as u64);
        push_str(&mut out, " items");
    }
    out
}

fn push_count(out: &mut Vec<char>, n: usize)
    ensures
        final(out)@ == old(out)@ + decimal(n as nat),
{
    push_decimal(out, n as u64);
}

impl AppState {
    /// The paths a batch operation acts on.
    pub fn batch_target_paths(&self) -> (r: Vec<String>)
        ensures
            strs(r@) == batch_targets(*self),
    {
        if self.selected_paths.len() > 0 {
            copy_strings_of(&self.selected_paths)
        } else {
            match self.navigation.current_selection() {
                Some(e) => {
                    let mut v: Vec<String> = Vec::new();
                    v.push(e.path);
                    assert(strs(v@) =~= seq![e.path@]);
                    v
                },
                None => {
                    let v: Vec<String> = Vec::new();
                    assert(strs(v@) =~= Seq::<Seq<char>>::empty());
                    v
                },
            }
        }
    }

    /// Records a visit to `path` in the recent list; returns whether the list
    /// changed and so needs saving.
    pub fn record_navigation(&mut self, path: &str) -> (changed: bool)
        ensures
            strs(final(self).config.recent@) == recorded(strs(old(self).config.recent@), path@),
            changed == !crate::config::lists_path(strs(old(self).config.recent@), path@),
            final(self).config.bookmarks == old(self).config.bookmarks,
            final(self).navigation == old(self).navigation,
            final(self).current_path == old(self).current_path,
            final(self).all_entries == old(self).all_entries,
            final(self).scan_applied == old(self).scan_applied,
            final(self).git_ctx == old(self).git_ctx,
            final(self).tabs == old(self).tabs,
            final(self).active_tab == old(self).active_tab,
            final(self).selected_paths == old(self).selected_paths,
            final(self).notification == old(self).notification,
            *final(self) == (AppState {
                config: final(self).config,
                ..*old(self)
            }),
    {
        self.config.record_recent(path)
    }

    /// Bookmarks the current directory unless it is bookmarked already, and
    /// says so; returns whether it was added (and the bookmarks need saving).
    pub fn add_bookmark(&mut self) -> (added: bool)
        ensures
            added == !crate::config::lists_path(strs(old(self).config.bookmarks@), old(self).current_path@),
            strs(final(self).config.bookmarks@) == if added {
                strs(old(self).config.bookmarks@).push(old(self).current_path@)
            } else {
                strs(old(self).config.bookmarks@)
            },
            added ==> opt_text(final(self).notification) == Some(
                crate::app::state::bookmark_message(old(self).current_path@),
            ),
            !added ==> final(self).notification == old(self).notification,
            final(self).config.recent == old(self).config.recent,
            final(self).navigation == old(self).navigation,
            final(self).current_path == old(self).current_path,
            final(self).tabs == old(self).tabs,
            final(self).active_tab == old(self).active_tab,
            final(self).selected_paths == old(self).selected_paths,
            *final(self) == (AppState {
                config: final(self).config,
                notification: final(self).notification,
                ..*old(self)
            }),
    {
        let added = self.config.add_bookmark(self.current_path.as_str());
        if added {
            let mut msg: Vec<char> = Vec::new();
            push_str(&mut msg, "Added to Bookmarks: ");
            let p = chars_of(self.current_path.as_str());
            match file_name_chars(&p) {
                Some(n) => push_chars(&mut msg, &n),
                None => push_chars(&mut msg, &p),
            }
            self.notification = Some(string_of(&msg));
        }
        added
    }

    /// Removes the bookmark at `index`, if there is one, keeping the modal's
    /// highlighted row on the list; returns whether one was removed.
    pub fn remove_bookmark(&mut self, index: usize) -> (removed: bool)
        ensures
            removed == (index < old(self).config.bookmarks.len()),
            strs(final(self).config.bookmarks@) == if removed {
                strs(old(self).config.bookmarks@).remove(index as int)
            } else {
                strs(old(self).config.bookmarks@)
            },
            final(self).modal_selected_index == if removed {
                crate::app::state::clamped_row(
                    old(self).modal_selected_index,
                    final(self).config.bookmarks.len() as nat,
                )
            } else {
                old(self).modal_selected_index
            },
            final(self).config.recent == old(self).config.recent,
            final(self).navigation == old(self).navigation,
            final(self).tabs == old(self).tabs,
            final(self).active_tab == old(self).active_tab,
            final(self).selected_paths == old(self).selected_paths,
            *final(self) == (AppState {
                config: final(self).config,
                modal_selected_index: final(self).modal_selected_index,
                ..*old(self)
            }),
    {
        if index < self.config.bookmarks.len() {
            self.config.remove_bookmark(index);
            let n = self.config.bookmarks.len();
            if n == 0 {
                self.modal_selected_index = 0;
            } else if self.modal_selected_index >= n {
                self.modal_selected_index = n - 1;
            }
            true
        } else {
            false
        }
    }

    /// Removes the recently visited entry at `index`, if there is one, keeping
    /// the modal's highlighted row on the list; returns whether one was removed.
    pub fn remove_recent(&mut self, index: usize) -> (removed: bool)
        ensures
            removed == (index < old(self).config.recent.len()),
            strs(final(self).config.recent@) == if removed {
                strs(old(self).config.recent@).remove(index as int)
            } else {
                strs(old(self).config.recent@)
            },
            final(self).modal_selected_index == if removed {
                crate::app::state::clamped_row(
                    old(self).modal_selected_index,
                    final(self).config.recent.len() as nat,
                )
            } else {
                old(self).modal_selected_index
            },
            final(self).config.bookmarks == old(self).config.bookmarks,
            final(self).navigation == old(self).navigation,
            final(self).tabs == old(self).tabs,
            final(self).active_tab == old(self).active_tab,
            final(self).selected_paths == old(self).selected_paths,
            *final(self) == (AppState {
                config: final(self).config,
                modal_selected_index: final(self).modal_selected_index,
                ..*old(self)
            }),
    {
        if index < self.config.recent.len() {
            self.config.remove_recent(index);
            let n = self.config.recent.len();
            if n == 0 {
                self.modal_selected_index = 0;
            } else if self.modal_selected_index >= n {
                self.modal_selected_index = n - 1;
            }
            true
        } else {
            false
        }
    }

    /// Copies the batch targets: remembers them for pasting, forgets any cut,
    /// clears the marks and says what was copied. Returns the text for the
    /// clipboard (the full paths, one per line), or nothing without targets.
    pub fn yank_full_path(&mut self) -> (text: Option<String>)
        requires
            old(self).wf(),
        ensures
            final(self).wf(),
            batch_targets(*old(self)).len() == 0 ==> text is None && *final(self) == *old(self),
            batch_targets(*old(self)).len() > 0 ==> {
                &&& opt_text(text) == Some(joined_lines(batch_targets(*old(self))))
                &&& strs(final(self).yanked_files@) == batch_targets(*old(self))
                &&& final(self).cut_files.len() == 0
                &&& final(self).selected_paths.len() == 0
                &&& opt_text(final(self).notification) == Some(
                    "Yanked: "@ + items_label(batch_targets(*old(self))),
                )
            },
            final(self).navigation == old(self).navigation,
            final(self).current_path == old(self).current_path,
            final(self).tabs == old(self).tabs,
            final(self).active_tab == old(self).active_tab,
            final(self).config == old(self).config,
            *final(self) == (AppState {
                yanked_files: final(self).yanked_files,
                cut_files: final(self).cut_files,
                notification: final(self).notification,
                selected_paths: final(self).selected_paths,
                ..*old(self)
            }),
    {
        let targets = self.batch_target_paths();
        if targets.len() == 0 {
            return None;
        }
        let ghost ts = strs(targets@);
        let mut text: Vec<char> = Vec::new();
        let mut i: usize = 0;
        while i < targets.len()
            invariant
                i <= targets.len(),
                ts == strs(targets@),
                text@ == joined_lines(ts.subrange(0, i as int)),
            decreases targets.len() - i,
        {
            assert(ts.subrange(0, i + 1).drop_last() =~= ts.subrange(0, i as int));
            if i > 0 {
                push_str(&mut text, "\n");
            } else {
                assert(joined_lines(ts.subrange(0, 0)) =~= Seq::<char>::empty());
            }
            push_str(&mut text, targets[i].as_str());
            i = i + 1;
            assert(text@ =~= joined_lines(ts.subrange(0, i as int)));
        }
        assert(ts.subrange(0, ts.len() as int) =~= ts);
        let mut msg: Vec<char> = Vec::new();
        push_str(&mut msg, "Yanked: ");
        let label = label_text(&targets);
        push_chars(&mut msg, &label);
        self.yanked_files = targets;
        self.cut_files = Vec::new();
        self.notification = Some(string_of(&msg));
        self.selected_paths = Vec::new();
        assert(strs(self.selected_paths@) =~= Seq::<Seq<char>>::empty());
        Some(string_of(&text))
    }

    /// Copies the file names of the batch targets: clears the marks and says
    /// how many. Returns the text for the clipboard (one name per line), or
    /// nothing without targets.
    pub fn yank_filename(&mut self) -> (text: Option<String>)
        requires
            old(self).wf(),
        ensures
            final(self).wf(),
            batch_targets(*old(self)).len() == 0 ==> text is None && *final(self) == *old(self),
            batch_targets(*old(self)).len() > 0 ==> {
                &&& opt_text(text) == Some(joined_lines(names_of(batch_targets(*old(self)))))
                &&& final(self).selected_paths.len() == 0
                &&& opt_text(final(self).notification) == Some(
                    "Yanked filename(s) of "@ + decimal(batch_targets(*old(self)).len())
                        + " items"@,
                )
                &&& final(self).yanked_files == old(self).yanked_files
                &&& final(self).cut_files == old(self).cut_files
            },
            final(self).navigation == old(self).navigation,
            final(self).current_path == old(self).current_path,
            final(self).tabs == old(self).tabs,
            final(self).active_tab == old(self).active_tab,
            final(self).config == old(self).config,
            *final(self) == (AppState {
                notification: final(self).notification,
                selected_paths: final(self).selected_paths,
                ..*old(self)
            }),
    {
        let targets = self.batch_target_paths();
        if targets.len() == 0 {
            return None;
        }
        let ghost ts = names_of(strs(targets@));
        let mut text: Vec<char> = Vec::new();
        let mut i: usize = 0;
        while i < targets.len()
            invariant
                i <= targets.len(),
                ts == names_of(strs(targets@)),
                text@ == joined_lines(ts.subrange(0, i as int)),
            decreases targets.len() - i,
        {
            assert(ts.subrange(0, i + 1).drop_last() =~= ts.subrange(0, i as int));
            if i > 0 {
                push_str(&mut text, "\n");
            } else {
                assert(joined_lines(ts.subrange(0, 0)) =~= Seq::<char>::empty());
            }
            let name = crate::paths::file_name_string(targets[i].as_str());
            push_str(&mut text, name.as_str());
            i = i + 1;
            assert(text@ =~= joined_lines(ts.subrange(0, i as int)));
        }
        assert(ts.subrange(0, ts.len() as int) =~= ts);
        let mut msg: Vec<char> = Vec::new();
        push_str(&mut msg, "Yanked filename(s) of ");
        push_count(&mut msg, targets.len());
        push_str(&mut msg, " items");
        self.notification = Some(string_of(&msg));
        self.selected_paths = Vec::new();
        assert(strs(self.selected_paths@) =~= Seq::<Seq<char>>::empty());
        Some(string_of(&text))
    }

    /// Cuts the batch targets for moving: remembers them, forgets any copy,
    /// clears the marks and says what was cut.
    pub fn cut_file(&mut self)
        requires
            old(self).wf(),
        ensures
            final(self).wf(),
            batch_targets(*old(self)).len() == 0 ==> *final(self) == *old(self),
            batch_targets(*old(self)).len() > 0 ==> {
                &&& strs(final(self).cut_files@) == batch_targets(*old(self))
                &&& final(self).yanked_files.len() == 0
                &&& final(self).selected_paths.len() == 0
                &&& opt_text(final(self).notification) == Some(
                    "Cut: "@ + items_label(batch_targets(*old(self))),
                )
            },
            final(self).navigation == old(self).navigation,
            final(self).current_path == old(self).current_path,
            final(self).tabs == old(self).tabs,
            final(self).active_tab == old(self).active_tab,
            final(self).config == old(self).config,
            *final(self) == (AppState {
                cut_files: final(self).cut_files,
                yanked_files: final(self).yanked_files,
                notification: final(self).notification,
                selected_paths: final(self).selected_paths,
                ..*old(self)
            }),
    {
        let targets = self.batch_target_paths();
        if targets.len() == 0 {
            return;
        }
        let mut msg: Vec<char> = Vec::new();
        push_str(&mut msg, "Cut: ");
        let label = label_text(&targets);
        push_chars(&mut msg, &label);
        self.cut_files = targets;
        self.yanked_files = Vec::new();
        self.notification = Some(string_of(&msg));
        self.selected_paths = Vec::new();
        assert(strs(self.selected_paths@) =~= Seq::<Seq<char>>::empty());
    }

    /// What pasting would do: copy the yanked paths (or, with none, move the
    /// cut ones) into the current directory. The flag says whether it moves.
    pub fn paste_plan(&self) -> (r: Option<(bool, Vec<(String, String)>)>)
        ensures
            self.yanked_files.len() > 0 ==> (r matches Some((m, jobs)) && !m && jobs_view(jobs@)
                == paste_jobs(strs(self.yanked_files@), self.current_path@)),
            self.yanked_files.len() == 0 && self.cut_files.len() > 0 ==> (r matches Some(
                (m, jobs),
            ) && m && jobs_view(jobs@) == paste_jobs(strs(self.cut_files@), self.current_path@)),
            self.yanked_files.len() == 0 && self.cut_files.len() == 0 ==> r is None,
    {
        if self.yanked_files.len() > 0 {
            Some((false, jobs_for(&self.yanked_files, self.current_path.as_str())))
        } else if self.cut_files.len() > 0 {
            Some((true, jobs_for(&self.cut_files, self.current_path.as_str())))
        } else {
            None
        }
    }

    /// Reports a paste in which `success` items went and `errors` failed; a
    /// move also forgets the cut paths.
    pub fn finish_paste(&mut self, moving: bool, success: usize, errors: usize)
        ensures
            opt_text(final(self).notification) == Some(
                paste_message(moving, success as nat, errors as nat),
            ),
            moving ==> final(self).cut_files.len() == 0,
            !moving ==> final(self).cut_files == old(self).cut_files,
            *final(self) == (AppState {
                notification: final(self).notification,
                cut_files: final(self).cut_files,
                ..*old(self)
            }),
    {
        let mut msg: Vec<char> = Vec::new();
        if moving {
            self.cut_files = Vec::new();
            push_str(&mut msg, "Moved ");
        } else {
            push_str(&mut msg, "Pasted ");
        }
        push_count(&mut msg, success);
        if errors > 0 {
            push_str(&mut msg, " items with ");
            push_count(&mut msg, errors);
            push_str(&mut msg, " errors");
        } else {
            push_str(&mut msg, " items successfully");
        }
        self.notification = Some(string_of(&msg));
    }

    /// Asks to delete the batch targets: keeps them and opens the
    /// confirmation dialog.
    pub fn request_delete(&mut self)
        requires
            old(self).wf(),
        ensures
            final(self).wf(),
            batch_targets(*old(self)).len() == 0 ==> *final(self) == *old(self),
            batch_targets(*old(self)).len() > 0 ==> {
                &&& strs(final(self).delete_targets@) == batch_targets(*old(self))
                &&& final(self).modal_mode == ModalMode::DeleteConfirmation
            },
            final(self).selected_paths == old(self).selected_paths,
            final(self).navigation == old(self).navigation,
            final(self).tabs == old(self).tabs,
            final(self).active_tab == old(self).active_tab,
            final(self).config == old(self).config,
            *final(self) == (AppState {
                delete_targets: final(self).delete_targets,
                modal_mode: final(self).modal_mode,
                ..*old(self)
            }),
    {
        let targets = self.batch_target_paths();
        if targets.len() == 0 {
            return;
        }
        self.delete_targets = targets;
        self.modal_mode = ModalMode::DeleteConfirmation;
    }

    /// Reports a deletion in which `success` of the targets went and `errors`
    /// failed; closes the dialog and clears the targets and the marks.
    pub fn finish_delete(&mut self, success: usize, errors: usize)
        requires
            old(self).wf(),
        ensures
            final(self).wf(),
            opt_text(final(self).notification) == Some(
                delete_message(old(self).delete_targets.len() as nat, success as nat, errors as nat),
            ),
            final(self).delete_targets.len() == 0,
            final(self).selected_paths.len() == 0,
            final(self).modal_mode == ModalMode::NoModal,
            final(self).navigation == old(self).navigation,
            final(self).tabs == old(self).tabs,
            final(self).active_tab == old(self).active_tab,
            final(self).config == old(self).config,
            *final(self) == (AppState {
                delete_targets: final(self).delete_targets,
                selected_paths: final(self).selected_paths,
                modal_mode: final(self).modal_mode,
                notification: final(self).notification,
                ..*old(self)
            }),
    {
        let count = self.delete_targets.len();
        self.delete_targets = Vec::new();
        self.selected_paths = Vec::new();
        assert(strs(self.selected_paths@) =~= Seq::<Seq<char>>::empty());
        self.modal_mode = ModalMode::NoModal;
        let mut msg: Vec<char> = Vec::new();
        push_str(&mut msg, "Deleted ");
        push_count(&mut msg, success);
        if errors > 0 {
            push_str(&mut msg, "/");
            push_count(&mut msg, count);
            push_str(&mut msg, " items (");
            push_count(&mut msg, errors);
            push_str(&mut msg, " errors)");
        } else {
            push_str(&mut msg, " items successfully");
        }
        self.notification = Some(string_of(&msg));
    }

    /// Opens the rename line on the selected entry, prefilled with its name.
    pub fn request_rename(&mut self)
        ensures
            match old(self).navigation.selection_view() {
                Some(e) => {
                    &&& opt_text(final(self).rename_target) == Some(e.path@)
                    &&& final(self).rename_input@ == file_name_or_empty(e.path@)
                    &&& final(self).rename_mode
                    &&& !final(self).search_mode
                },
                None => *final(self) == *old(self),
            },
            final(self).navigation == old(self).navigation,
            final(self).tabs == old(self).tabs,
            final(self).active_tab == old(self).active_tab,
            final(self).selected_paths == old(self).selected_paths,
            final(self).config == old(self).config,
            *final(self) == (AppState {
                rename_input: final(self).rename_input,
                rename_mode: final(self).rename_mode,
                rename_target: final(self).rename_target,
                search_mode: final(self).search_mode,
                ..*old(self)
            }),
    {
        match self.navigation.current_selection() {
            Some(item) => {
                let name = crate::paths::file_name_string(item.path.as_str());
                self.rename_target = Some(item.path);
                self.rename_input = name;
                self.rename_mode = true;
                self.search_mode = false;
            },
            None => {},
        }
    }

    /// The rename that confirming would perform.
    pub fn rename_request(&self) -> (r: Option<(String, String)>)
        ensures
            match r {
                Some((a, b)) => rename_plan(*self) == Some((a@, b@)),
                None => rename_plan(*self) is None,
            },
    {
        match &self.rename_target {
            Some(t) => {
                if !self.rename_input.as_str().is_empty() {
                    match parent_chars(&chars_of(t.as_str())) {
                        Some(par) => {
                            let dst = join_path(string_of(&par).as_str(), self.rename_input.as_str());
                            Some((t.clone(), dst))
                        },
                        None => None,
                    }
                } else {
                    None
                }
            },
            None => None,
        }
    }

    /// Closes the rename line. `renamed` tells whether the planned rename was
    /// attempted and, if so, whether it worked; the notification says so.
    pub fn confirm_rename(&mut self, renamed: Option<bool>)
        requires
            renamed == Some(true) ==> (old(self).rename_target matches Some(t) && file_name(t@) is Some),
        ensures
            final(self).rename_target is None,
            !final(self).rename_mode,
            final(self).rename_input@.len() == 0,
            match renamed {
                Some(true) => opt_text(final(self).notification) == Some(
                    "Renamed "@ + file_name_or_empty(old(self).rename_target.unwrap()@) + " to "@
                        + old(self).rename_input@,
                ),
                Some(false) => opt_text(final(self).notification) == Some("Rename failed"@),
                None => final(self).notification == old(self).notification,
            },
            final(self).navigation == old(self).navigation,
            final(self).tabs == old(self).tabs,
            final(self).active_tab == old(self).active_tab,
            final(self).selected_paths == old(self).selected_paths,
            final(self).config == old(self).config,
            *final(self) == (AppState {
                notification: final(self).notification,
                rename_input: final(self).rename_input,
                rename_mode: final(self).rename_mode,
                rename_target: final(self).rename_target,
                ..*old(self)
            }),
    {
        let target = self.rename_target.take();
        match renamed {
            Some(true) => {
                let mut msg: Vec<char> = Vec::new();
                push_str(&mut msg, "Renamed ");
                match &target {
                    Some(t) => {
                        let name = crate::paths::file_name_string(t.as_str());
                        push_str(&mut msg, name.as_str());
                    },
                    None => {},
                }
                push_str(&mut msg, " to ");
                push_str(&mut msg, self.rename_input.as_str());
                self.notification = Some(string_of(&msg));
            },
            Some(false) => {
                self.notification = Some(String::from_str("Rename failed"));
            },
            None => {},
        }
        self.rename_mode = false;
        self.rename_input = String::new();
    }

    /// Opens the size details of the selected directory and returns it for
    /// scanning; a file or an empty selection only gets a notification.
    pub fn trigger_size_details_popup(&mut self) -> (r: Option<String>)
        ensures
            match old(self).navigation.selection_view() {
                Some(e) => if e.entry_type == crate::fs::walker::EntryType::Directory {
                    &&& opt_text(r) == Some(e.path@)
                    &&& final(self).modal_mode == ModalMode::SizeDetails
                    &&& opt_text(final(self).size_popup_path) == Some(e.path@)
                } else {
                    &&& r is None
                    &&& opt_text(final(self).notification) == Some(
                        "Cannot scan size: selected item is a file (must select a folder)"@,
                    )
                    &&& final(self).modal_mode == old(self).modal_mode
                },
                None => {
                    &&& r is None
                    &&& opt_text(final(self).notification) == Some("No item selected to scan"@)
                    &&& final(self).modal_mode == old(self).modal_mode
                },
            },
            final(self).navigation == old(self).navigation,
            final(self).tabs == old(self).tabs,
            final(self).active_tab == old(self).active_tab,
            final(self).selected_paths == old(self).selected_paths,
            final(self).config == old(self).config,
            *final(self) == (AppState {
                modal_mode: final(self).modal_mode,
                notification: final(self).notification,
                size_popup_path: final(self).size_popup_path,
                ..*old(self)
            }),
    {
        match self.navigation.current_selection() {
            Some(entry) => {
                if entry.entry_type == crate::fs::walker::EntryType::Directory {
                    self.modal_mode = ModalMode::SizeDetails;
                    self.size_popup_path = Some(entry.path.clone());
                    Some(entry.path)
                } else {
                    self.notification = Some(
                        String::from_str(
                            "Cannot scan size: selected item is a file (must select a folder)",
                        ),
                    );
                    None
                }
            },
            None => {
                self.notification = Some(String::from_str("No item selected to scan"));
                None
            },
        }
    }

    /// Closes the size details.
    pub fn close_size_details_popup(&mut self)
        ensures
            final(self).modal_mode == ModalMode::NoModal,
            final(self).size_popup_path is None,
            final(self).navigation == old(self).navigation,
            final(self).tabs == old(self).tabs,
            final(self).active_tab == old(self).active_tab,
            final(self).selected_paths == old(self).selected_paths,
            final(self).config == old(self).config,
            *final(self) == (AppState {
                modal_mode: final(self).modal_mode,
                size_popup_path: final(self).size_popup_path,
                ..*old(self)
            }),
    {
        self.modal_mode = ModalMode::NoModal;
        self.size_popup_path = None;
    }
}

/// The texts of paste jobs.
pub open spec fn jobs_view(v: Seq<(String, String)>) -> Seq<(Seq<char>, Seq<char>)> {
    v.map_values(|j: (String, String)| (j.0@, j.1@))
}

fn jobs_for(ts: &Vec<String>, dir: &str) -> (r: Vec<(String, String)>)
    ensures
        jobs_view(r@) == paste_jobs(strs(ts@), dir@),
{
    let ghost s = strs(ts@);
    let mut r: Vec<(String, String)> = Vec::new();
    let mut i: usize = 0;
    while i < ts.len()
        invariant
            i <= ts.len(),
            s == strs(ts@),
            jobs_view(r@) == paste_jobs(s.subrange(0, i as int), dir@),
        decreases ts.len() - i,
    {
        assert(s.subrange(0, i + 1).drop_last() =~= s.subrange(0, i as int));
        let ghost before = r@;
        match file_name_chars(&chars_of(ts[i].as_str())) {
            Some(n) => {
                let dst = join_path(dir, string_of(&n).as_str());
                r.push((ts[i].clone(), dst));
                assert(jobs_view(r@) =~= jobs_view(before).push((ts@[i as int]@, dst@)));
            },
            None => {},
        }
        i = i + 1;
    }
    assert(s.subrange(0, s.len() as int) =~= s);
    r
}

/// The text of an optional message.
pub open spec fn opt_text(s: Option<String>) -> Option<Seq<char>> {
    match s {
        Some(t) => Some(t@),
        None => None,
    }
}

} // verus!
