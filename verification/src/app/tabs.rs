use vstd::prelude::*;
use crate::app::{copy_git, AppState, SortMode, Tab};
use crate::fs::walker::{copy_entries, DirEntry};
use crate::git::GitContext;
use crate::navigation::Navigation;

verus! {

/// Two navigation states that list, select, expand and filter alike.
pub open spec fn nav_same(a: Navigation, b: Navigation) -> bool {
    &&& a.items_view() == b.items_view()
    &&& a.cursor_view() == b.cursor_view()
    &&& a.expanded_set() == b.expanded_set()
    &&& a.query_view() == b.query_view()
    &&& a.mode_view() == b.mode_view()
    &&& a.results_view() == b.results_view()
}

/// The tab `t` holds the directory view of `s`.
pub open spec fn holds_view(t: Tab, s: AppState) -> bool {
    &&& t.current_path@ == s.current_path@
    &&& t.all_entries@ == s.all_entries@
    &&& t.scan_applied == s.scan_applied
    &&& t.git_ctx == s.git_ctx
    &&& nav_same(t.navigation, s.navigation)
}

/// The tab after `a` when cycling through `n` tabs.
pub open spec fn next_index(a: nat, n: nat) -> nat {
    (((a + 1) as int) % (n as int)) as nat
}

/// The tab before `a` when cycling through `n` tabs.
pub open spec fn prev_index(a: nat, n: nat) -> nat {
    (((a + n - 1) as int) % (n as int)) as nat
}

/// The active index among the `n - 1` tabs left after one of `n` tabs is
/// closed while the tab at `a` was active: it stays, unless it now lies past
/// the end, where it moves to the last tab.
pub open spec fn active_after_close(a: nat, n: nat) -> nat {
    if a >= n - 1 {
        (n - 2) as nat
    } else {
        a
    }
}

/// Moving to the next tab and then to the previous one comes back.
pub proof fn lemma_next_then_prev(a: nat, n: nat)
    requires
        a < n,
    ensures
        prev_index(next_index(a, n), n) == a,
        next_index(prev_index(a, n), n) == a,
        next_index(a, n) < n,
        prev_index(a, n) < n,
{
    if a + 1 < n {
        assert(next_index(a, n) == a + 1) by {
            vstd::arithmetic::div_mod::lemma_small_mod((a + 1) as nat, n);
        }
        assert(prev_index(a + 1, n) == a) by {
            vstd::arithmetic::div_mod::lemma_mod_add_multiples_vanish(a as int, n as int);
            vstd::arithmetic::div_mod::lemma_small_mod(a, n);
        }
    } else {
        assert(next_index(a, n) == 0) by {
            vstd::arithmetic::div_mod::lemma_mod_self_0(n as int);
        }
        assert(prev_index(0, n) == a) by {
            vstd::arithmetic::div_mod::lemma_small_mod((n - 1) as nat, n);
        }
    }
    if a == 0 {
        assert(prev_index(0, n) == n - 1) by {
            vstd::arithmetic::div_mod::lemma_small_mod((n - 1) as nat, n);
        }
        assert(next_index((n - 1) as nat, n) == 0) by {
            vstd::arithmetic::div_mod::lemma_mod_self_0(n as int);
        }
    } else {
        assert(prev_index(a, n) == a - 1) by {
            vstd::arithmetic::div_mod::lemma_mod_add_multiples_vanish((a - 1) as int, n as int);
            vstd::arithmetic::div_mod::lemma_small_mod((a - 1) as nat, n);
        }
        assert(next_index((a - 1) as nat, n) == a) by {
            vstd::arithmetic::div_mod::lemma_small_mod(a, n);
        }
    }
    vstd::arithmetic::div_mod::lemma_mod_bound((a + 1) as int, n as int);
    vstd::arithmetic::div_mod::lemma_mod_bound((a + n - 1) as int, n as int);
}

impl AppState {
    fn current_as_tab(&self) -> (t: Tab)
        ensures
            holds_view(t, *self),
    {
        Tab {
            current_path: self.current_path.clone(),
            navigation: self.navigation.duplicate(),
            all_entries: copy_entries(&self.all_entries),
            scan_applied: self.scan_applied,
            git_ctx: copy_git(&self.git_ctx),
        }
    }

    /// Stores the directory view into the active tab.
    pub fn save_active_tab(&mut self)
        ensures
            final(self).tabs.len() == old(self).tabs.len(),
            old(self).active_tab < old(self).tabs.len() ==> holds_view(
                final(self).tabs[old(self).active_tab as int],
                *old(self),
            ),
            forall|i: int|
                0 <= i < old(self).tabs.len() && i != old(self).active_tab ==> final(self).tabs[i]
                    == old(self).tabs[i],
            old(self).active_tab >= old(self).tabs.len() ==> final(self).tabs == old(self).tabs,
            final(self).active_tab == old(self).active_tab,
            final(self).current_path == old(self).current_path,
            final(self).navigation == old(self).navigation,
            final(self).all_entries == old(self).all_entries,
            final(self).scan_applied == old(self).scan_applied,
            final(self).git_ctx == old(self).git_ctx,
            final(self).config == old(self).config,
            final(self).selected_paths == old(self).selected_paths,
            *final(self) == (AppState {
                tabs: final(self).tabs,
                ..*old(self)
            }),
    {
        if self.active_tab < self.tabs.len() {
            let t = self.current_as_tab();
            let i = self.active_tab;
            self.tabs.set(i, t);
        }
    }

    /// Makes the tab at `index` active and shows its directory view.
    pub fn load_tab(&mut self, index: usize)
        ensures
            index < old(self).tabs.len() ==> {
                &&& final(self).active_tab == index
                &&& holds_view(old(self).tabs[index as int], *final(self))
            },
            index >= old(self).tabs.len() ==> *final(self) == *old(self),
            final(self).tabs == old(self).tabs,
            final(self).config == old(self).config,
            final(self).selected_paths == old(self).selected_paths,
            *final(self) == (AppState {
                active_tab: final(self).active_tab,
                all_entries: final(self).all_entries,
                current_path: final(self).current_path,
                git_ctx: final(self).git_ctx,
                navigation: final(self).navigation,
                scan_applied: final(self).scan_applied,
                ..*old(self)
            }),
    {
        if index < self.tabs.len() {
            let tab = &self.tabs[index];
            let path = tab.current_path.clone();
            let nav = tab.navigation.duplicate();
            let entries = copy_entries(&tab.all_entries);
            let applied = tab.scan_applied;
            let git = copy_git(&tab.git_ctx);
            self.current_path = path;
            self.navigation = nav;
            self.all_entries = entries;
            self.scan_applied = applied;
            self.git_ctx = git;
            self.active_tab = index;
        }
    }

    /// Opens a tab on `path`, whose direct entries are `entries`, and makes it
    /// active; the view being left is saved into its tab first.
    pub fn open_tab(&mut self, path: String, entries: Vec<DirEntry>, git_ctx: Option<GitContext>)
        requires
            old(self).wf(),
        ensures
            final(self).wf(),
            final(self).tabs.len() == old(self).tabs.len() + 1,
            final(self).active_tab == old(self).tabs.len(),
            holds_view(final(self).tabs[old(self).active_tab as int], *old(self)),
            forall|i: int|
                0 <= i < old(self).tabs.len() && i != old(self).active_tab ==> final(self).tabs[i]
                    == old(self).tabs[i],
            final(self).current_path@ == path@,
            final(self).all_entries@ == entries@,
            !final(self).scan_applied,
            final(self).git_ctx == git_ctx,
            crate::sort::arranged(
                entries@,
                crate::navigation::entry_order(entries@, SortMode::SizeDesc),
                final(self).navigation.items_view(),
            ),
            final(self).navigation.cursor_view() == 0,
            final(self).navigation.query_view() is None,
            final(self).navigation.expanded_set() == Set::<Seq<char>>::empty(),
            final(self).navigation.mode_view() == SortMode::SizeDesc,
            holds_view(final(self).tabs[old(self).tabs.len() as int], *final(self)),
            final(self).config == old(self).config,
            final(self).selected_paths == old(self).selected_paths,
            *final(self) == (AppState {
                tabs: final(self).tabs,
                active_tab: final(self).active_tab,
                all_entries: final(self).all_entries,
                current_path: final(self).current_path,
                git_ctx: final(self).git_ctx,
                navigation: final(self).navigation,
                scan_applied: final(self).scan_applied,
                ..*old(self)
            }),
    {
        self.save_active_tab();
        let copy = copy_entries(&entries);
        let tab = Tab {
            current_path: path,
            navigation: Navigation::new(entries, SortMode::SizeDesc),
            all_entries: copy,
            scan_applied: false,
            git_ctx,
        };
        self.tabs.push(tab);
        let last = self.tabs.len() - 1;
        self.load_tab(last);
    }

    /// Closes the active tab, unless it is the only one; the tab after it (or
    /// the new last tab) becomes active.
    pub fn close_tab(&mut self)
        requires
            old(self).wf(),
        ensures
            final(self).wf(),
            old(self).tabs.len() <= 1 ==> *final(self) == *old(self),
            old(self).tabs.len() > 1 ==> {
                &&& final(self).tabs@ == old(self).tabs@.remove(old(self).active_tab as int)
                &&& final(self).active_tab == active_after_close(
                    old(self).active_tab as nat,
                    old(self).tabs.len() as nat,
                )
                &&& holds_view(final(self).tabs[final(self).active_tab as int], *final(self))
            },
            final(self).config == old(self).config,
            final(self).selected_paths == old(self).selected_paths,
            *final(self) == (AppState {
                tabs: final(self).tabs,
                active_tab: final(self).active_tab,
                all_entries: final(self).all_entries,
                current_path: final(self).current_path,
                git_ctx: final(self).git_ctx,
                navigation: final(self).navigation,
                scan_applied: final(self).scan_applied,
                ..*old(self)
            }),
    {
        if self.tabs.len() <= 1 {
            return;
        }
        let i = self.active_tab;
        let _ = self.tabs.remove(i);
        let new_idx = if self.active_tab >= self.tabs.len() {
            self.tabs.len() - 1
        } else {
            self.active_tab
        };
        self.load_tab(new_idx);
    }

    /// Closes the tab at `index`, unless it is the only one or there is no
    /// such tab; the active position is kept when it still names a tab.
    pub fn close_tab_at(&mut self, index: usize)
        requires
            old(self).wf(),
        ensures
            final(self).wf(),
            old(self).tabs.len() <= 1 || index >= old(self).tabs.len() ==> *final(self) == *old(self),
            old(self).tabs.len() > 1 && index < old(self).tabs.len() ==> {
                &&& final(self).tabs@ == old(self).tabs@.remove(index as int)
                &&& final(self).active_tab == active_after_close(
                    old(self).active_tab as nat,
                    old(self).tabs.len() as nat,
                )
                &&& holds_view(final(self).tabs[final(self).active_tab as int], *final(self))
            },
            final(self).config == old(self).config,
            final(self).selected_paths == old(self).selected_paths,
            *final(self) == (AppState {
                tabs: final(self).tabs,
                active_tab: final(self).active_tab,
                all_entries: final(self).all_entries,
                current_path: final(self).current_path,
                git_ctx: final(self).git_ctx,
                navigation: final(self).navigation,
                scan_applied: final(self).scan_applied,
                ..*old(self)
            }),
    {
        if self.tabs.len() <= 1 || index >= self.tabs.len() {
            return;
        }
        let _ = self.tabs.remove(index);
        let new_idx = if self.active_tab >= self.tabs.len() {
            self.tabs.len() - 1
        } else {
            self.active_tab
        };
        self.load_tab(new_idx);
    }

    /// Saves the view and moves to the next tab, wrapping around.
    pub fn next_tab(&mut self)
        requires
            old(self).wf(),
        ensures
            final(self).wf(),
            old(self).tabs.len() <= 1 ==> *final(self) == *old(self),
            old(self).tabs.len() > 1 ==> {
                &&& final(self).tabs.len() == old(self).tabs.len()
                &&& final(self).active_tab == next_index(
                    old(self).active_tab as nat,
                    old(self).tabs.len() as nat,
                )
                &&& holds_view(final(self).tabs[old(self).active_tab as int], *old(self))
                &&& forall|i: int|
                    0 <= i < old(self).tabs.len() && i != old(self).active_tab ==> final(self).tabs[i]
                        == old(self).tabs[i]
                &&& holds_view(final(self).tabs[final(self).active_tab as int], *final(self))
            },
            final(self).config == old(self).config,
            final(self).selected_paths == old(self).selected_paths,
            *final(self) == (AppState {
                tabs: final(self).tabs,
                active_tab: final(self).active_tab,
                all_entries: final(self).all_entries,
                current_path: final(self).current_path,
                git_ctx: final(self).git_ctx,
                navigation: final(self).navigation,
                scan_applied: final(self).scan_applied,
                ..*old(self)
            }),
    {
        if self.tabs.len() <= 1 {
            return;
        }
        self.save_active_tab();
        let new_idx = (self.active_tab + 1) % self.tabs.len();
        proof {
            lemma_next_then_prev(self.active_tab as nat, self.tabs.len() as nat);
        }
        self.load_tab(new_idx);
    }

    /// Saves the view and moves to the previous tab, wrapping around.
    pub fn prev_tab(&mut self)
        requires
            old(self).wf(),
        ensures
            final(self).wf(),
            old(self).tabs.len() <= 1 ==> *final(self) == *old(self),
            old(self).tabs.len() > 1 ==> {
                &&& final(self).tabs.len() == old(self).tabs.len()
                &&& final(self).active_tab == prev_index(
                    old(self).active_tab as nat,
                    old(self).tabs.len() as nat,
                )
                &&& holds_view(final(self).tabs[old(self).active_tab as int], *old(self))
                &&& forall|i: int|
                    0 <= i < old(self).tabs.len() && i != old(self).active_tab ==> final(self).tabs[i]
                        == old(self).tabs[i]
                &&& holds_view(final(self).tabs[final(self).active_tab as int], *final(self))
            },
            final(self).config == old(self).config,
            final(self).selected_paths == old(self).selected_paths,
            *final(self) == (AppState {
                tabs: final(self).tabs,
                active_tab: final(self).active_tab,
                all_entries: final(self).all_entries,
                current_path: final(self).current_path,
                git_ctx: final(self).git_ctx,
                navigation: final(self).navigation,
                scan_applied: final(self).scan_applied,
                ..*old(self)
            }),
    {
        if self.tabs.len() <= 1 {
            return;
        }
        self.save_active_tab();
        let n = self.tabs.len();
        let new_idx = if self.active_tab == 0 {
            n - 1
        } else {
            self.active_tab - 1
        };
        proof {
            lemma_next_then_prev(self.active_tab as nat, n as nat);
            if self.active_tab == 0 {
                vstd::arithmetic::div_mod::lemma_small_mod((n - 1) as nat, n as nat);
            } else {
                vstd::arithmetic::div_mod::lemma_mod_add_multiples_vanish(
                    (self.active_tab - 1) as int,
                    n as int,
                );
                vstd::arithmetic::div_mod::lemma_small_mod((self.active_tab - 1) as nat, n as nat);
            }
        }
        self.load_tab(new_idx);
    }
}

} // verus!
