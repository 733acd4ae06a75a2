use vstd::prelude::*;
use vstd::relations::*;
use crate::app::SortMode;
use crate::fs::walker::{DirEntry, EntryType};
use crate::fuzzy::{fuzzy_match, fuzzy_score};
use crate::paths::{
    canonical, canonical_chars, file_name_chars, same_path, file_name_or_empty, lemma_path_le_antisym, lemma_path_le_total,
    lemma_path_le_trans, path_le, path_le_chars,
};
use crate::sort::{arranged, is_index_permutation, sort_indices};
use crate::text::{
    chars_of, lemma_text_le_antisym, lemma_text_le_lexicographic, lemma_text_le_total, lemma_text_le_trans, same_chars, text_le,
    text_le_chars,
};

verus! {

/// A cursor movement.
#[derive(Debug, Clone, Copy, PartialEq, Eq, Structural)]
pub enum Direction {
    Up,
    Down,
    First,
    Last,
}

/// What the selection asks the caller to do.
#[derive(Debug, Clone, PartialEq, Eq)]
pub enum NavigationAction {
    EnterDirectory(String),
    OpenFile(String),
    ToggleExpansion(String),
    NoAction,
}

/// Ties on the sort key are broken by path, then by position.
pub open spec fn path_tie(a: DirEntry, b: DirEntry, i: usize, j: usize) -> bool {
    if a.path@ == b.path@ {
        i <= j
    } else {
        path_le(a.path@, b.path@)
    }
}

/// The order in which `sort_mode` lists the entries of `v` (by position).
pub open spec fn entry_order(v: Seq<DirEntry>, mode: SortMode) -> spec_fn(usize, usize) -> bool {
    |i: usize, j: usize|
        {
            let a = v[i as int];
            let b = v[j as int];
            match mode {
                SortMode::SizeDesc => a.size > b.size || (a.size == b.size && path_tie(a, b, i, j)),
                SortMode::NameAsc => {
                    let na = file_name_or_empty(a.path@);
                    let nb = file_name_or_empty(b.path@);
                    if na == nb {
                        i <= j
                    } else {
                        text_le(na, nb)
                    }
                },
                SortMode::MtimeDesc => a.mtime > b.mtime || (a.mtime == b.mtime && path_tie(
                    a,
                    b,
                    i,
                    j,
                )),
            }
        }
}

proof fn lemma_path_tie(a: DirEntry, b: DirEntry, c: DirEntry, i: usize, j: usize, k: usize)
    ensures
        path_tie(a, a, i, i),
        path_tie(a, b, i, j) && path_tie(b, a, j, i) ==> a.path@ == b.path@ && i == j,
        path_tie(a, b, i, j) && path_tie(b, c, j, k) ==> path_tie(a, c, i, k),
        path_tie(a, b, i, j) || path_tie(b, a, j, i),
{
    lemma_path_le_total(a.path@, b.path@);
    if path_tie(a, b, i, j) && path_tie(b, a, j, i) && a.path@ != b.path@ {
        lemma_path_le_antisym(a.path@, b.path@);
    }
    if path_tie(a, b, i, j) && path_tie(b, c, j, k) {
        if a.path@ != b.path@ && b.path@ != c.path@ {
            lemma_path_le_trans(a.path@, b.path@, c.path@);
            if a.path@ == c.path@ {
                lemma_path_le_antisym(a.path@, b.path@);
            }
        }
    }
}

/// Each listing order is a total order on the positions of the entries, so
/// sorting by it has exactly one outcome.
pub proof fn lemma_entry_order_total(v: Seq<DirEntry>, mode: SortMode)
    ensures
        total_ordering(entry_order(v, mode)),
{
    let r = entry_order(v, mode);
    assert forall|x: usize| #[trigger] r(x, x) by {
        lemma_path_tie(v[x as int], v[x as int], v[x as int], x, x, x);
    }
    assert forall|x: usize, y: usize| #[trigger] r(x, y) && #[trigger] r(y, x) implies x == y by {
        let (a, b) = (v[x as int], v[y as int]);
        lemma_path_tie(a, b, a, x, y, x);
        if mode == SortMode::NameAsc {
            let na = file_name_or_empty(a.path@);
            let nb = file_name_or_empty(b.path@);
            if na != nb {
                lemma_text_le_antisym(na, nb);
            }
        }
    }
    assert forall|x: usize, y: usize, z: usize| #[trigger] r(x, y) && #[trigger] r(y, z) implies r(
        x,
        z,
    ) by {
        let (a, b, c) = (v[x as int], v[y as int], v[z as int]);
        lemma_path_tie(a, b, c, x, y, z);
        if mode == SortMode::NameAsc {
            let (na, nb, nc) = (
                file_name_or_empty(a.path@),
                file_name_or_empty(b.path@),
                file_name_or_empty(c.path@),
            );
            if na != nb && nb != nc {
                lemma_text_le_trans(na, nb, nc);
                if na == nc {
                    lemma_text_le_antisym(na, nb);
                }
            }
        }
    }
    assert forall|x: usize, y: usize| #[trigger] r(x, y) || #[trigger] r(y, x) by {
        let (a, b) = (v[x as int], v[y as int]);
        lemma_path_tie(a, b, a, x, y, x);
        lemma_text_le_total(file_name_or_empty(a.path@), file_name_or_empty(b.path@));
    }
}

fn name_chars(e: &DirEntry) -> (r: Vec<char>)
    ensures
        r@ == file_name_or_empty(e.path@),
{
    let p = chars_of(e.path.as_str());
    match file_name_chars(&p) {
        Some(n) => n,
        None => Vec::new(),
    }
}

fn path_tie_exec(a: &DirEntry, b: &DirEntry, i: usize, j: usize) -> (r: bool)
    ensures
        r == path_tie(*a, *b, i, j),
{
    let pa = chars_of(a.path.as_str());
    let pb = chars_of(b.path.as_str());
    if same_chars(&pa, &pb) {
        i <= j
    } else {
        path_le_chars(&pa, &pb)
    }
}

fn entry_before(v: &Vec<DirEntry>, mode: SortMode, i: usize, j: usize) -> (r: bool)
    requires
        i < v.len(),
        j < v.len(),
    ensures
        r == entry_order(v@, mode)(i, j),
{
    let a = &v[i];
    let b = &v[j];
    match mode {
        SortMode::SizeDesc => a.size > b.size || (a.size == b.size && path_tie_exec(a, b, i, j)),
        SortMode::NameAsc => {
            let na = name_chars(a);
            let nb = name_chars(b);
            if same_chars(&na, &nb) {
                i <= j
            } else {
                text_le_chars(&na, &nb)
            }
        },
        SortMode::MtimeDesc => a.mtime > b.mtime || (a.mtime == b.mtime && path_tie_exec(
            a,
            b,
            i,
            j,
        )),
    }
}

/// `v` listed in the order of `mode`; ties keep the order they had.
pub fn sort_entries(v: &Vec<DirEntry>, mode: SortMode) -> (r: Vec<DirEntry>)
    ensures
        arranged(v@, entry_order(v@, mode), r@),
{
    let n = v.len();
    let le = |i: usize, j: usize| -> (b: bool)
        requires
            i < v.len(),
            j < v.len(),
        ensures
            b == entry_order(v@, mode)(i, j),
        { entry_before(v, mode, i, j) };
    proof {
        lemma_entry_order_total(v@, mode);
    }
    let perm = sort_indices(n, &le, Ghost(entry_order(v@, mode)));
    let mut r: Vec<DirEntry> = Vec::new();
    let mut k: usize = 0;
    while k < n
        invariant
            k <= n,
            n == v.len(),
            perm.len() == n,
            forall|x: int| 0 <= x < perm.len() ==> perm[x] < n,
            r@ == perm@.subrange(0, k as int).map_values(|i: usize| v@[i as int]),
        decreases n - k,
    {
        r.push(v[perm[k]].duplicate());
        k = k + 1;
        assert(r@ =~= perm@.subrange(0, k as int).map_values(|i: usize| v@[i as int]));
    }
    assert(perm@.subrange(0, n as int) =~= perm@);
    assert(is_index_permutation(perm@, v@.len()));
    r
}

/// Entries of `v` that match the query `q`, with their scores, in list order.
pub open spec fn fuzzy_hits(v: Seq<DirEntry>, q: Seq<char>) -> Seq<(DirEntry, u32)>
    decreases v.len(),
{
    if v.len() == 0 {
        Seq::empty()
    } else {
        let rest = fuzzy_hits(v.drop_last(), q);
        match fuzzy_score(q, v.last().display_path@) {
            Some(s) => rest.push((v.last(), s)),
            None => rest,
        }
    }
}

/// Best scores first; equal scores keep list order.
pub open spec fn score_order(h: Seq<(DirEntry, u32)>) -> spec_fn(usize, usize) -> bool {
    |i: usize, j: usize| h[i as int].1 > h[j as int].1 || (h[i as int].1 == h[j as int].1 && i <= j)
}

/// By name, entries sort in lexicographic order of their names' character
/// codes (the order of `OsStr` on UTF-8 names): when the names of `v[i]` and
/// `v[j]` agree on `k` characters and then `v[i]`'s has the smaller code, or
/// ends there while `v[j]`'s goes on, `v[i]` comes strictly first, whatever
/// the lengths.
pub proof fn lemma_name_order_lexicographic(v: Seq<DirEntry>, i: usize, j: usize, k: int)
    requires
        i < v.len(),
        j < v.len(),
        0 <= k <= file_name_or_empty(v[i as int].path@).len(),
        k <= file_name_or_empty(v[j as int].path@).len(),
        forall|x: int| 0 <= x < k ==> file_name_or_empty(v[i as int].path@)[x] == file_name_or_empty(v[j as int].path@)[x],
        ({
            let a = file_name_or_empty(v[i as int].path@);
            let b = file_name_or_empty(v[j as int].path@);
            ||| (k < a.len() && k < b.len() && (a[k] as u32) < (b[k] as u32))
            ||| (k == a.len() && k < b.len())
        }),
    ensures
        entry_order(v, SortMode::NameAsc)(i, j),
        !entry_order(v, SortMode::NameAsc)(j, i),
{
    let a = file_name_or_empty(v[i as int].path@);
    let b = file_name_or_empty(v[j as int].path@);
    lemma_text_le_lexicographic(a, b, k);
    assert(a != b) by {
        if k < a.len() && k < b.len() {
            assert(a[k] != b[k]);
        } else {
            assert(a.len() != b.len());
        }
    }
}

/// Matches listed in score order come best score first: a list arranged
/// from `h` by `score_order` never puts a lower score before a higher one.
pub proof fn lemma_score_order_best_first(h: Seq<(DirEntry, u32)>, r: Seq<(DirEntry, u32)>)
    requires
        arranged(h, score_order(h), r),
    ensures
        forall|k: int, l: int| 0 <= k < l < r.len() ==> #[trigger] r[k].1 >= #[trigger] r[l].1,
{
    let perm = choose|perm: Seq<usize>|
        #![trigger is_index_permutation(perm, h.len())]
        is_index_permutation(perm, h.len()) && sorted_by(perm, score_order(h)) && perm.len() == h.len() && r
            == perm.map_values(|i: usize| h[i as int]);
    assert forall|k: int, l: int| 0 <= k < l < r.len() implies #[trigger] r[k].1 >= #[trigger] r[l].1 by {
        assert(score_order(h)(perm[k], perm[l]));
        assert(r[k] == h[perm[k] as int] && r[l] == h[perm[l] as int]);
    }
}

/// The order of fuzzy matches (best score first, then position) is a total
/// order on their positions.
pub proof fn lemma_score_order_total(h: Seq<(DirEntry, u32)>)
    ensures
        total_ordering(score_order(h)),
{
}

fn copy_hit(h: &(DirEntry, u32)) -> (r: (DirEntry, u32))
    ensures
        r == *h,
{
    (h.0.duplicate(), h.1)
}

/// The entries of `v` that fuzzy-match `q`, best first.
pub fn rank_matches(v: &Vec<DirEntry>, q: &str) -> (r: Vec<(DirEntry, u32)>)
    ensures
        arranged(fuzzy_hits(v@, q@), score_order(fuzzy_hits(v@, q@)), r@),
        forall|k: int, l: int| 0 <= k < l < r.len() ==> #[trigger] r@[k].1 >= #[trigger] r@[l].1,
{
    let mut hits: Vec<(DirEntry, u32)> = Vec::new();
    let mut i: usize = 0;
    while i < v.len()
        invariant
            i <= v.len(),
            hits@ == fuzzy_hits(v@.subrange(0, i as int), q@),
        decreases v.len() - i,
    {
        assert(v@.subrange(0, i + 1).drop_last() =~= v@.subrange(0, i as int));
        match fuzzy_match(q, v[i].display_path.as_str()) {
            Some(s) => hits.push((v[i].duplicate(), s)),
            None => {},
        }
        i = i + 1;
    }
    assert(v@.subrange(0, v.len() as int) =~= v@);
    let n = hits.len();
    let ghost h = hits@;
    let le = |a: usize, b: usize| -> (res: bool)
        requires
            a < hits.len(),
            b < hits.len(),
        ensures
            res == score_order(hits@)(a, b),
        { hits[a].1 > hits[b].1 || (hits[a].1 == hits[b].1 && a <= b) };
    proof {
        lemma_score_order_total(h);
    }
    let perm = sort_indices(n, &le, Ghost(score_order(h)));
    let mut r: Vec<(DirEntry, u32)> = Vec::new();
    let mut k: usize = 0;
    while k < n
        invariant
            k <= n,
            n == hits.len(),
            perm.len() == n,
            forall|x: int| 0 <= x < perm.len() ==> perm[x] < n,
            r@ == perm@.subrange(0, k as int).map_values(|i: usize| h[i as int]),
            h == hits@,
        decreases n - k,
    {
        r.push(copy_hit(&hits[perm[k]]));
        k = k + 1;
        assert(r@ =~= perm@.subrange(0, k as int).map_values(|i: usize| h[i as int]));
    }
    assert(perm@.subrange(0, n as int) =~= perm@);
    assert(is_index_permutation(perm@, h.len()));
    proof {
        lemma_score_order_best_first(fuzzy_hits(v@, q@), r@);
    }
    r
}

} // verus!
verus! {

/// The cursor and listing state of one directory view.
pub struct Navigation {
    items: Vec<DirEntry>,
    cursor: usize,
    expanded: Vec<String>,
    filter_query: Option<String>,
    sort_mode: SortMode,
    filter_results: Vec<(DirEntry, u32)>,
    /// The directories toggled since the view was made or last collapsed,
    /// in order.
    toggled: Ghost<Seq<Seq<char>>>,
}

/// The expanded directories after expanding or collapsing `p`.
pub open spec fn flipped(s: Set<Seq<char>>, p: Seq<char>) -> Set<Seq<char>> {
    if s.contains(p) {
        s.remove(p)
    } else {
        s.insert(p)
    }
}

/// Expanding and collapsing the same directory leaves the expanded
/// directories as they were.
pub proof fn lemma_expand_twice(s: Set<Seq<char>>, p: Seq<char>)
    ensures
        flipped(flipped(s, p), p) == s,
{
    assert(flipped(flipped(s, p), p) =~= s);
}

/// The expanded directories after expanding or collapsing each path of `ps`
/// in turn, starting from `s`.
pub open spec fn flips(s: Set<Seq<char>>, ps: Seq<Seq<char>>) -> Set<Seq<char>>
    decreases ps.len(),
{
    if ps.len() == 0 {
        s
    } else {
        flipped(flips(s, ps.drop_last()), ps.last())
    }
}

/// How many times `p` occurs in `ps`.
pub open spec fn times(ps: Seq<Seq<char>>, p: Seq<char>) -> nat
    decreases ps.len(),
{
    if ps.len() == 0 {
        0
    } else {
        times(ps.drop_last(), p) + if ps.last() == p {
            1nat
        } else {
            0nat
        }
    }
}

/// Toggling `p` after the run `ps` is the run `ps` followed by `p`: each
/// toggle that answers `ToggleExpansion(p)` extends the run by `p`.
pub proof fn lemma_flips_push(s: Set<Seq<char>>, ps: Seq<Seq<char>>, p: Seq<char>)
    ensures
        flips(s, ps.push(p)) == flipped(flips(s, ps), p),
{
    assert(ps.push(p).drop_last() =~= ps);
}

/// After a run of toggles from `s`, a directory is expanded exactly when it
/// was expanded before and toggled an even number of times, or was not and
/// was toggled an odd number of times.
pub proof fn lemma_flips_parity(s: Set<Seq<char>>, ps: Seq<Seq<char>>, p: Seq<char>)
    ensures
        flips(s, ps).contains(p) <==> (s.contains(p) <==> times(ps, p) % 2 == 0),
    decreases ps.len(),
{
    if ps.len() > 0 {
        lemma_flips_parity(s, ps.drop_last(), p);
    }
}

/// Starting with nothing expanded, as a new view starts, a directory is
/// expanded after a run of toggles exactly when it was toggled an odd number
/// of times.
pub proof fn lemma_expanded_iff_odd_toggles(ps: Seq<Seq<char>>, p: Seq<char>)
    ensures
        flips(Set::<Seq<char>>::empty(), ps).contains(p) <==> times(ps, p) % 2 == 1,
{
    lemma_flips_parity(Set::<Seq<char>>::empty(), ps, p);
}

/// The text of an optional string.
pub open spec fn opt_view(s: Option<String>) -> Option<Seq<char>> {
    match s {
        Some(t) => Some(t@),
        None => None,
    }
}

/// What `enter_selected` answers for the selection `sel`, given whether a
/// symlink's target is a directory.
pub open spec fn enter_outcome(sel: Option<DirEntry>, target_is_dir: bool, r: NavigationAction) -> bool {
    match sel {
        None => r == NavigationAction::NoAction,
        Some(e) => match e.entry_type {
            EntryType::Directory => r matches NavigationAction::EnterDirectory(p) && p@ == e.path@,
            EntryType::File => r matches NavigationAction::OpenFile(p) && p@ == e.path@,
            EntryType::Symlink => match e.symlink_target {
                Some(t) => if target_is_dir {
                    r matches NavigationAction::EnterDirectory(p) && p@ == t@
                } else {
                    r matches NavigationAction::OpenFile(p) && p@ == e.path@
                },
                None => r == NavigationAction::NoAction,
            },
        },
    }
}

/// Where `move_cursor` puts a cursor at `c` over `len` visible rows.
pub open spec fn moved_cursor(c: usize, len: nat, d: Direction) -> usize {
    if len == 0 {
        c
    } else {
        match d {
            Direction::Up => if c > 0 {
                (c - 1) as usize
            } else {
                c
            },
            Direction::Down => if c < len - 1 {
                (c + 1) as usize
            } else {
                c
            },
            Direction::First => 0,
            Direction::Last => (len - 1) as usize,
        }
    }
}

impl Navigation {
    /// The listed entries, in listing order.
    pub closed spec fn items_view(&self) -> Seq<DirEntry> {
        self.items@
    }

    /// The cursor position among the visible rows.
    pub closed spec fn cursor_view(&self) -> usize {
        self.cursor
    }

    /// The expanded directories, as `Path` compares paths (see `canonical`).
    pub closed spec fn expanded_set(&self) -> Set<Seq<char>> {
        self.expanded@.map_values(|s: String| canonical(s@)).to_set()
    }

    /// The directories toggled since the view was made or last collapsed
    /// entirely, in order (as `canonical` writes them).
    pub closed spec fn toggle_history(&self) -> Seq<Seq<char>> {
        self.toggled@
    }

    /// The expanded directories are those that the toggles since the view
    /// was made (or last collapsed) leave expanded.
    pub open spec fn follows_history(&self) -> bool {
        self.expanded_set() == flips(Set::<Seq<char>>::empty(), self.toggle_history())
    }

    /// The active filter query.
    pub closed spec fn query_view(&self) -> Option<Seq<char>> {
        opt_view(self.filter_query)
    }

    /// The listing order.
    pub closed spec fn mode_view(&self) -> SortMode {
        self.sort_mode
    }

    /// The entries matching the filter, with their scores, best first.
    pub closed spec fn results_view(&self) -> Seq<(DirEntry, u32)> {
        self.filter_results@
    }

    /// The rows shown: the filter's matches while a query is set, else the items.
    pub open spec fn visible_view(&self) -> Seq<DirEntry> {
        if self.query_view() is Some {
            self.results_view().map_values(|h: (DirEntry, u32)| h.0)
        } else {
            self.items_view()
        }
    }

    /// The visible entry under the cursor.
    pub open spec fn selection_view(&self) -> Option<DirEntry> {
        if self.cursor_view() < self.visible_view().len() {
            Some(self.visible_view()[self.cursor_view() as int])
        } else {
            None
        }
    }

    /// Creates a view over `items` listed in `sort_mode` order, cursor on top.
    pub fn new(items: Vec<DirEntry>, sort_mode: SortMode) -> (nav: Self)
        ensures
            arranged(items@, entry_order(items@, sort_mode), nav.items_view()),
            nav.cursor_view() == 0,
            nav.expanded_set() == Set::<Seq<char>>::empty(),
            nav.query_view() is None,
            nav.results_view().len() == 0,
            nav.mode_view() == sort_mode,
            nav.toggle_history() == Seq::<Seq<char>>::empty(),
            nav.follows_history(),
    {
        let sorted = sort_entries(&items, sort_mode);
        let nav = Navigation {
            items: sorted,
            cursor: 0,
            expanded: Vec::new(),
            filter_query: None,
            sort_mode,
            filter_results: Vec::new(),
            toggled: Ghost(Seq::empty()),
        };
        assert(nav.expanded@.map_values(|s: String| canonical(s@)).to_set() =~= Set::<Seq<char>>::empty());
        nav
    }

    fn apply_sort(&mut self)
        ensures
            arranged(old(self).items@, entry_order(old(self).items@, old(self).sort_mode), final(self).items@),
            final(self).cursor == old(self).cursor,
            final(self).expanded == old(self).expanded,
            final(self).filter_query == old(self).filter_query,
            final(self).sort_mode == old(self).sort_mode,
            final(self).filter_results == old(self).filter_results,
            final(self).toggled == old(self).toggled,
    {
        self.items = sort_entries(&self.items, self.sort_mode);
    }

    fn visible_len(&self) -> (n: usize)
        ensures
            n == self.visible_view().len(),
    {
        if self.filter_query.is_some() {
            self.filter_results.len()
        } else {
            self.items.len()
        }
    }

    /// Moves the cursor within the visible rows; never asks for an action.
    pub fn move_cursor(&mut self, direction: Direction) -> (r: NavigationAction)
        ensures
            r == NavigationAction::NoAction,
            final(self).cursor_view() == moved_cursor(
                old(self).cursor_view(),
                old(self).visible_view().len(),
                direction,
            ),
            final(self).items_view() == old(self).items_view(),
            final(self).expanded_set() == old(self).expanded_set(),
            final(self).query_view() == old(self).query_view(),
            final(self).mode_view() == old(self).mode_view(),
            final(self).results_view() == old(self).results_view(),
            final(self).toggle_history() == old(self).toggle_history(),
    {
        let len = self.visible_len();
        if len == 0 {
            return NavigationAction::NoAction;
        }
        match direction {
            Direction::Up => {
                if self.cursor > 0 {
                    self.cursor = self.cursor - 1;
                }
            },
            Direction::Down => {
                if self.cursor < len - 1 {
                    self.cursor = self.cursor + 1;
                }
            },
            Direction::First => {
                self.cursor = 0;
            },
            Direction::Last => {
                self.cursor = len - 1;
            },
        }
        NavigationAction::NoAction
    }

    /// The visible rows.
    pub fn visible_items(&self) -> (r: Vec<DirEntry>)
        ensures
            r@ == self.visible_view(),
    {
        if self.filter_query.is_some() {
            let mut r: Vec<DirEntry> = Vec::new();
            let mut i: usize = 0;
            while i < self.filter_results.len()
                invariant
                    i <= self.filter_results.len(),
                    r@ == self.filter_results@.subrange(0, i as int).map_values(
                        |h: (DirEntry, u32)| h.0,
                    ),
                decreases self.filter_results.len() - i,
            {
                r.push(self.filter_results[i].0.duplicate());
                i = i + 1;
                assert(r@ =~= self.filter_results@.subrange(0, i as int).map_values(
                    |h: (DirEntry, u32)| h.0,
                ));
            }
            assert(self.filter_results@.subrange(0, i as int) =~= self.filter_results@);
            r
        } else {
            crate::fs::walker::copy_entries(&self.items)
        }
    }

    /// The matching rows with their scores, best first.
    pub fn visible_items_with_scores(&self) -> (r: Vec<(DirEntry, u32)>)
        ensures
            r@ == self.results_view(),
    {
        let mut r: Vec<(DirEntry, u32)> = Vec::new();
        let mut i: usize = 0;
        while i < self.filter_results.len()
            invariant
                i <= self.filter_results.len(),
                r@ == self.filter_results@.subrange(0, i as int),
            decreases self.filter_results.len() - i,
        {
            r.push(copy_hit(&self.filter_results[i]));
            i = i + 1;
            assert(r@ =~= self.filter_results@.subrange(0, i as int));
        }
        assert(self.filter_results@.subrange(0, i as int) =~= self.filter_results@);
        r
    }

    /// The visible entry under the cursor.
    pub fn current_selection(&self) -> (r: Option<DirEntry>)
        ensures
            r == self.selection_view(),
    {
        if self.filter_query.is_some() {
            if self.cursor < self.filter_results.len() {
                Some(self.filter_results[self.cursor].0.duplicate())
            } else {
                None
            }
        } else if self.cursor < self.items.len() {
            Some(self.items[self.cursor].duplicate())
        } else {
            None
        }
    }

    /// What opening the selection means: enter a directory, open a file, or
    /// follow a symlink (into its target when `target_is_dir`).
    pub fn enter_selected(&self, target_is_dir: bool) -> (r: NavigationAction)
        ensures
            enter_outcome(self.selection_view(), target_is_dir, r),
    {
        match self.current_selection() {
            None => NavigationAction::NoAction,
            Some(entry) => match entry.entry_type {
                EntryType::Directory => NavigationAction::EnterDirectory(entry.path),
                EntryType::File => NavigationAction::OpenFile(entry.path),
                EntryType::Symlink => match entry.symlink_target {
                    Some(t) => {
                        if target_is_dir {
                            NavigationAction::EnterDirectory(t)
                        } else {
                            NavigationAction::OpenFile(entry.path)
                        }
                    },
                    None => NavigationAction::NoAction,
                },
            },
        }
    }

    fn expanded_index(&self, p: &Vec<char>) -> (r: Option<usize>)
        ensures
            match r {
                Some(k) => k < self.expanded.len() && canonical(self.expanded[k as int]@) == p@,
                None => forall|k: int| 0 <= k < self.expanded.len() ==> canonical(self.expanded[k]@) != p@,
            },
    {
        let mut k: usize = 0;
        while k < self.expanded.len()
            invariant
                k <= self.expanded.len(),
                forall|x: int| 0 <= x < k ==> canonical(self.expanded[x]@) != p@,
            decreases self.expanded.len() - k,
        {
            let e = canonical_chars(&chars_of(self.expanded[k].as_str()));
            if same_chars(&e, p) {
                return Some(k);
            }
            k = k + 1;
        }
        None
    }

    /// Whether the directory `path` is expanded (as `Path` compares paths):
    /// exactly when it was toggled an odd number of times since the view was
    /// made or last collapsed.
    pub fn is_expanded(&self, path: &str) -> (r: bool)
        ensures
            r == self.expanded_set().contains(canonical(path@)),
            self.follows_history() ==> (r <==> times(self.toggle_history(), canonical(path@)) % 2 == 1),
    {
        proof {
            lemma_expanded_iff_odd_toggles(self.toggle_history(), canonical(path@));
        }
        let p = canonical_chars(&chars_of(path));
        let found = self.expanded_index(&p);
        proof {
            let v = self.expanded@.map_values(|s: String| canonical(s@));
            match found {
                Some(k) => {
                    assert(v[k as int] == canonical(path@));
                },
                None => {
                    if v.to_set().contains(canonical(path@)) {
                        let k = choose|k: int| 0 <= k < v.len() && v[k] == canonical(path@);
                        assert(canonical(self.expanded[k]@) != p@);
                    }
                },
            }
        }
        found.is_some()
    }

    /// Expands or collapses the selected directory.
    pub fn toggle_expand_selected(&mut self) -> (r: NavigationAction)
        ensures
            match old(self).selection_view() {
                Some(e) => if e.entry_type == EntryType::Directory {
                    &&& r matches NavigationAction::ToggleExpansion(p) && p@ == e.path@
                    &&& final(self).expanded_set() == flipped(old(self).expanded_set(), canonical(e.path@))
                    &&& final(self).toggle_history() == old(self).toggle_history().push(canonical(e.path@))
                } else {
                    &&& r == NavigationAction::NoAction
                    &&& final(self).expanded_set() == old(self).expanded_set()
                    &&& final(self).toggle_history() == old(self).toggle_history()
                },
                None => {
                    &&& r == NavigationAction::NoAction
                    &&& final(self).expanded_set() == old(self).expanded_set()
                    &&& final(self).toggle_history() == old(self).toggle_history()
                },
            },
            old(self).follows_history() ==> final(self).follows_history(),
            final(self).items_view() == old(self).items_view(),
            final(self).cursor_view() == old(self).cursor_view(),
            final(self).query_view() == old(self).query_view(),
            final(self).mode_view() == old(self).mode_view(),
            final(self).results_view() == old(self).results_view(),
    {
        match self.current_selection() {
            Some(entry) => {
                if entry.entry_type == EntryType::Directory {
                    let path = entry.path;
                    let ghost before = self.expanded@.map_values(|s: String| canonical(s@));
                    if self.is_expanded(path.as_str()) {
                        let p = canonical_chars(&chars_of(path.as_str()));
                        let mut kept: Vec<String> = Vec::new();
                        let mut k: usize = 0;
                        assert(kept@.map_values(|s: String| canonical(s@)).to_set() =~= before.subrange(0, 0).to_set().remove(canonical(path@)));
                        while k < self.expanded.len()
                            invariant
                                k <= self.expanded.len(),
                                before == self.expanded@.map_values(|s: String| canonical(s@)),
                                p@ == canonical(path@),
                                kept@.map_values(|s: String| canonical(s@)).to_set() == before.subrange(0, k as int).to_set().remove(canonical(path@)),
                            decreases self.expanded.len() - k,
                        {
                            let e = canonical_chars(&chars_of(self.expanded[k].as_str()));
                            let ghost kv = kept@.map_values(|s: String| canonical(s@));
                            let ghost bk = before.subrange(0, k as int);
                            assert(before.subrange(0, k + 1) =~= bk.push(before[k as int]));
                            proof {
                                bk.lemma_push_to_set_commute(before[k as int]);
                            }
                            if !same_chars(&e, &p) {
                                kept.push(self.expanded[k].clone());
                                assert(kept@.map_values(|s: String| canonical(s@)) =~= kv.push(before[k as int]));
                                proof {
                                    kv.lemma_push_to_set_commute(before[k as int]);
                                }
                                assert(kept@.map_values(|s: String| canonical(s@)).to_set() =~= before.subrange(0, k + 1).to_set().remove(canonical(path@)));
                            } else {
                                assert(before[k as int] == canonical(path@));
                                assert(kept@.map_values(|s: String| canonical(s@)).to_set() =~= before.subrange(0, k + 1).to_set().remove(canonical(path@)));
                            }
                            k = k + 1;
                        }
                        self.expanded = kept;
                        assert(before.subrange(0, before.len() as int) =~= before);
                    } else {
                        self.expanded.push(path.clone());
                        proof {
                            let after = self.expanded@.map_values(|s: String| canonical(s@));
                            assert(after =~= before.push(canonical(path@)));
                            before.lemma_push_to_set_commute(canonical(path@));
                        }
                    }
                    proof {
                        lemma_flips_push(Set::<Seq<char>>::empty(), self.toggled@, canonical(path@));
                    }
                    self.toggled = Ghost(self.toggled@.push(canonical(path@)));
                    return NavigationAction::ToggleExpansion(path);
                }
                NavigationAction::NoAction
            },
            None => NavigationAction::NoAction,
        }
    }

    /// Sets or clears the filter. A query keeps the entries of `entries` that
    /// fuzzy-match it, best first; either way the cursor returns to the top.
    pub fn set_filter(&mut self, query: Option<String>, entries: &Vec<DirEntry>)
        ensures
            final(self).query_view() == opt_view(query),
            match query {
                Some(q) => arranged(
                    fuzzy_hits(entries@, q@),
                    score_order(fuzzy_hits(entries@, q@)),
                    final(self).results_view(),
                ),
                None => final(self).results_view().len() == 0,
            },
            final(self).cursor_view() == 0,
            final(self).items_view() == old(self).items_view(),
            final(self).expanded_set() == old(self).expanded_set(),
            final(self).mode_view() == old(self).mode_view(),
            final(self).toggle_history() == old(self).toggle_history(),
    {
        match query {
            Some(q) => {
                let results = rank_matches(entries, q.as_str());
                self.filter_results = results;
                self.filter_query = Some(q);
            },
            None => {
                self.filter_results = Vec::new();
                self.filter_query = None;
            },
        }
        self.cursor = 0;
    }

    /// The active filter query.
    pub fn filter_query(&self) -> (r: Option<String>)
        ensures
            opt_view(r) == self.query_view(),
    {
        match &self.filter_query {
            Some(q) => Some(q.clone()),
            None => None,
        }
    }

    /// Replaces the items, listed in the current order.
    pub fn update_items(&mut self, items: Vec<DirEntry>)
        ensures
            arranged(items@, entry_order(items@, old(self).mode_view()), final(self).items_view()),
            final(self).cursor_view() == old(self).cursor_view(),
            final(self).expanded_set() == old(self).expanded_set(),
            final(self).query_view() == old(self).query_view(),
            final(self).mode_view() == old(self).mode_view(),
            final(self).results_view() == old(self).results_view(),
            final(self).toggle_history() == old(self).toggle_history(),
    {
        self.items = items;
        self.apply_sort();
    }

    /// Replaces the items, keeping the given order.
    pub fn update_items_raw(&mut self, items: Vec<DirEntry>)
        ensures
            final(self).items_view() == items@,
            final(self).cursor_view() == old(self).cursor_view(),
            final(self).expanded_set() == old(self).expanded_set(),
            final(self).query_view() == old(self).query_view(),
            final(self).mode_view() == old(self).mode_view(),
            final(self).results_view() == old(self).results_view(),
            final(self).toggle_history() == old(self).toggle_history(),
    {
        self.items = items;
    }

    /// Puts the cursor on the first visible row for `path` (as `Path` compares
    /// paths), if there is one.
    pub fn select_path(&mut self, path: &str)
        ensures
            (exists|k: int| 0 <= k < old(self).visible_view().len() && same_path(#[trigger] old(self).visible_view()[k].path@, path@)) ==> {
                &&& final(self).cursor_view() < old(self).visible_view().len()
                &&& same_path(old(self).visible_view()[final(self).cursor_view() as int].path@, path@)
                &&& forall|k: int| 0 <= k < final(self).cursor_view() ==> !same_path(#[trigger] old(self).visible_view()[k].path@, path@)
            },
            (forall|k: int| 0 <= k < old(self).visible_view().len() ==> !same_path(#[trigger] old(self).visible_view()[k].path@, path@))
                ==> final(self).cursor_view() == old(self).cursor_view(),
            final(self).items_view() == old(self).items_view(),
            final(self).expanded_set() == old(self).expanded_set(),
            final(self).query_view() == old(self).query_view(),
            final(self).mode_view() == old(self).mode_view(),
            final(self).results_view() == old(self).results_view(),
            final(self).toggle_history() == old(self).toggle_history(),
    {
        let visible = self.visible_items();
        let p = canonical_chars(&chars_of(path));
        let mut k: usize = 0;
        while k < visible.len()
            invariant
                k <= visible.len(),
                *self == *old(self),
                visible@ == self.visible_view(),
                p@ == canonical(path@),
                forall|x: int| 0 <= x < k ==> !same_path(#[trigger] visible@[x].path@, path@),
            decreases visible.len() - k,
        {
            let e = canonical_chars(&chars_of(visible[k].path.as_str()));
            if same_chars(&e, &p) {
                self.cursor = k;
                return;
            }
            k = k + 1;
        }
    }

    /// Puts the cursor on row `index`.
    pub fn set_cursor(&mut self, index: usize)
        ensures
            final(self).cursor_view() == index,
            final(self).items_view() == old(self).items_view(),
            final(self).expanded_set() == old(self).expanded_set(),
            final(self).query_view() == old(self).query_view(),
            final(self).mode_view() == old(self).mode_view(),
            final(self).results_view() == old(self).results_view(),
            final(self).toggle_history() == old(self).toggle_history(),
    {
        self.cursor = index;
    }

    /// The cursor position.
    pub fn cursor(&self) -> (r: usize)
        ensures
            r == self.cursor_view(),
    {
        self.cursor
    }

    /// The listing order.
    pub fn sort_mode(&self) -> (r: SortMode)
        ensures
            r == self.mode_view(),
    {
        self.sort_mode
    }

    /// Changes the listing order and relists the items in it.
    pub fn set_sort_mode(&mut self, mode: SortMode)
        ensures
            final(self).mode_view() == mode,
            arranged(old(self).items_view(), entry_order(old(self).items_view(), mode), final(self).items_view()),
            final(self).cursor_view() == old(self).cursor_view(),
            final(self).expanded_set() == old(self).expanded_set(),
            final(self).query_view() == old(self).query_view(),
            final(self).results_view() == old(self).results_view(),
            final(self).toggle_history() == old(self).toggle_history(),
    {
        self.sort_mode = mode;
        self.apply_sort();
    }

    /// Collapses every directory.
    pub fn clear_expanded(&mut self)
        ensures
            final(self).expanded_set() == Set::<Seq<char>>::empty(),
            final(self).toggle_history() == Seq::<Seq<char>>::empty(),
            final(self).follows_history(),
            final(self).items_view() == old(self).items_view(),
            final(self).cursor_view() == old(self).cursor_view(),
            final(self).query_view() == old(self).query_view(),
            final(self).mode_view() == old(self).mode_view(),
            final(self).results_view() == old(self).results_view(),
    {
        self.toggled = Ghost(Seq::empty());
        self.expanded = Vec::new();
        assert(self.expanded@.map_values(|s: String| canonical(s@)).to_set() =~= Set::<Seq<char>>::empty());
    }

    /// A copy of this view.
    pub fn duplicate(&self) -> (r: Navigation)
        ensures
            r.items_view() == self.items_view(),
            r.cursor_view() == self.cursor_view(),
            r.expanded_set() == self.expanded_set(),
            r.toggle_history() == self.toggle_history(),
            r.query_view() == self.query_view(),
            r.mode_view() == self.mode_view(),
            r.results_view() == self.results_view(),
    {
        let mut exp: Vec<String> = Vec::new();
        let mut i: usize = 0;
        while i < self.expanded.len()
            invariant
                i <= self.expanded.len(),
                exp@ == self.expanded@.subrange(0, i as int),
            decreases self.expanded.len() - i,
        {
            exp.push(self.expanded[i].clone());
            i = i + 1;
            assert(exp@ =~= self.expanded@.subrange(0, i as int));
        }
        assert(self.expanded@.subrange(0, i as int) =~= self.expanded@);
        Navigation {
            items: crate::fs::walker::copy_entries(&self.items),
            cursor: self.cursor,
            expanded: exp,
            filter_query: self.filter_query(),
            sort_mode: self.sort_mode,
            filter_results: self.visible_items_with_scores(),
            toggled: Ghost(self.toggled@),
        }
    }
}

} // verus!
