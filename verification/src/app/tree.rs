use vstd::prelude::*;
use crate::app::{AppState, SortMode};
use crate::fs::walker::{DirEntry, EntryType};
use crate::navigation::{entry_order, flipped, lemma_entry_order_total, lemma_expand_twice, sort_entries, Navigation};
use crate::paths::{canonical, canonical_chars, parent, parent_chars, same_path};
use crate::sort::{arrangement, lemma_arrangement};
use crate::text::{chars_of, same_chars};

verus! {

/// The entries of `all` whose parent directory is `d`, as `Path` compares
/// paths, in list order.
pub open spec fn entries_in(all: Seq<DirEntry>, d: Seq<char>) -> Seq<DirEntry>
    decreases all.len(),
{
    if all.len() == 0 {
        Seq::empty()
    } else {
        let rest = entries_in(all.drop_last(), d);
        if in_dir(all.last().path@, d) {
            rest.push(all.last())
        } else {
            rest
        }
    }
}

/// `p` lies directly inside the directory `d`, as `Path` compares paths.
pub open spec fn in_dir(p: Seq<char>, d: Seq<char>) -> bool {
    match parent(p) {
        Some(q) => same_path(q, d),
        None => false,
    }
}

/// The children of `d` among `all`, listed in `mode` order.
pub open spec fn children(all: Seq<DirEntry>, d: Seq<char>, mode: SortMode) -> Seq<DirEntry> {
    let kids = entries_in(all, d);
    arrangement(kids, entry_order(kids, mode))
}

/// The rows drawn for the entries `kids` at `depth`: each entry, followed by
/// the rows of its children when it is an expanded directory. `fuel` bounds
/// the nesting.
pub open spec fn forest(
    all: Seq<DirEntry>,
    kids: Seq<DirEntry>,
    depth: u32,
    exp: Set<Seq<char>>,
    mode: SortMode,
    fuel: nat,
) -> Seq<(DirEntry, u32)>
    decreases fuel, kids.len(),
{
    if kids.len() == 0 {
        Seq::empty()
    } else {
        forest(all, kids.drop_last(), depth, exp, mode, fuel) + subtree(
            all,
            kids.last(),
            depth,
            exp,
            mode,
            fuel,
        )
    }
}

/// The rows drawn for the entry `e` at `depth` and, when it is an expanded
/// directory, for what lies below it.
pub open spec fn subtree(
    all: Seq<DirEntry>,
    e: DirEntry,
    depth: u32,
    exp: Set<Seq<char>>,
    mode: SortMode,
    fuel: nat,
) -> Seq<(DirEntry, u32)>
    decreases fuel, 0nat,
{
    if fuel > 0 && e.entry_type == EntryType::Directory && exp.contains(canonical(e.path@)) {
        seq![(e, depth)] + forest(
            all,
            children(all, e.path@, mode),
            (depth + 1) as u32,
            exp,
            mode,
            (fuel - 1) as nat,
        )
    } else {
        seq![(e, depth)]
    }
}

/// The nesting bound: every depth fits in `u32`. A directory's children have
/// longer paths than it, so no chain of listed directories comes near it.
pub open spec fn tree_fuel() -> nat {
    (u32::MAX - 1) as nat
}

/// The rows of the tree rooted at `root`: its children in `mode` order, each
/// expanded directory followed by its own rows one level deeper.
pub open spec fn expanded_tree(
    all: Seq<DirEntry>,
    root: Seq<char>,
    exp: Set<Seq<char>>,
    mode: SortMode,
) -> Seq<(DirEntry, u32)> {
    forest(all, children(all, root, mode), 0, exp, mode, tree_fuel())
}

/// Adding entries that all lie inside `d` leaves the entries inside any
/// other directory `p` as they were.
proof fn lemma_entries_in_extended(all: Seq<DirEntry>, extra: Seq<DirEntry>, d: Seq<char>, p: Seq<char>)
    requires
        !same_path(p, d),
        forall|i: int| 0 <= i < extra.len() ==> in_dir(#[trigger] extra[i].path@, d),
    ensures
        entries_in(all + extra, p) == entries_in(all, p),
    decreases extra.len(),
{
    if extra.len() > 0 {
        assert((all + extra).drop_last() =~= all + extra.drop_last());
        assert(in_dir(extra[extra.len() - 1].path@, d));
        lemma_entries_in_extended(all, extra.drop_last(), d, p);
    } else {
        assert(all + extra =~= all);
    }
}

/// The rows below the entries `kids` do not change when entries inside a
/// directory `d` that is not expanded are added.
proof fn lemma_forest_extended(
    all: Seq<DirEntry>,
    extra: Seq<DirEntry>,
    d: Seq<char>,
    kids: Seq<DirEntry>,
    depth: u32,
    exp: Set<Seq<char>>,
    mode: SortMode,
    fuel: nat,
)
    requires
        !exp.contains(canonical(d)),
        forall|i: int| 0 <= i < extra.len() ==> in_dir(#[trigger] extra[i].path@, d),
    ensures
        forest(all + extra, kids, depth, exp, mode, fuel) == forest(all, kids, depth, exp, mode, fuel),
    decreases fuel, kids.len(),
{
    if kids.len() > 0 {
        lemma_forest_extended(all, extra, d, kids.drop_last(), depth, exp, mode, fuel);
        lemma_subtree_extended(all, extra, d, kids.last(), depth, exp, mode, fuel);
    }
}

/// The rows of the entry `e` do not change when entries inside a directory
/// `d` that is not expanded are added.
proof fn lemma_subtree_extended(
    all: Seq<DirEntry>,
    extra: Seq<DirEntry>,
    d: Seq<char>,
    e: DirEntry,
    depth: u32,
    exp: Set<Seq<char>>,
    mode: SortMode,
    fuel: nat,
)
    requires
        !exp.contains(canonical(d)),
        forall|i: int| 0 <= i < extra.len() ==> in_dir(#[trigger] extra[i].path@, d),
    ensures
        subtree(all + extra, e, depth, exp, mode, fuel) == subtree(all, e, depth, exp, mode, fuel),
    decreases fuel, 0nat,
{
    if fuel > 0 && e.entry_type == EntryType::Directory && exp.contains(canonical(e.path@)) {
        lemma_entries_in_extended(all, extra, d, e.path@);
        let kids = children(all, e.path@, mode);
        assert(children(all + extra, e.path@, mode) == kids);
        lemma_forest_extended(all, extra, d, kids, (depth + 1) as u32, exp, mode, (fuel - 1) as nat);
    }
}

/// Expanding and collapsing the same directory (whose key, as `canonical`
/// writes it, is `k`) leaves the rows of the tree as they were.
pub proof fn lemma_toggle_twice_rows(
    all: Seq<DirEntry>,
    root: Seq<char>,
    exp: Set<Seq<char>>,
    mode: SortMode,
    k: Seq<char>,
)
    ensures
        expanded_tree(all, root, flipped(flipped(exp, k), k), mode) == expanded_tree(all, root, exp, mode),
{
    lemma_expand_twice(exp, k);
}

/// Expanding a collapsed directory `d` below the root, taking in the entries
/// listed inside it, and collapsing it again gives back the rows that the
/// tree had before. Paths are compared as `Path` compares them.
pub proof fn lemma_expand_load_collapse(
    all: Seq<DirEntry>,
    loaded: Seq<DirEntry>,
    root: Seq<char>,
    exp: Set<Seq<char>>,
    mode: SortMode,
    d: Seq<char>,
)
    requires
        !exp.contains(canonical(d)),
        !same_path(root, d),
        forall|i: int| 0 <= i < loaded.len() ==> in_dir(#[trigger] loaded[i].path@, d),
    ensures
        expanded_tree(all + loaded, root, flipped(flipped(exp, canonical(d)), canonical(d)), mode)
            == expanded_tree(all, root, exp, mode),
{
    lemma_expand_twice(exp, canonical(d));
    lemma_entries_in_extended(all, loaded, d, root);
    let kids = children(all, root, mode);
    assert(children(all + loaded, root, mode) == kids);
    lemma_forest_extended(all, loaded, d, kids, 0, exp, mode, tree_fuel());
}

/// The entries of the rows.
pub open spec fn row_entries(rows: Seq<(DirEntry, u32)>) -> Seq<DirEntry> {
    rows.map_values(|r: (DirEntry, u32)| r.0)
}

/// Whether `c` is where the cursor goes when the entry `sel`, which sat at
/// `c0`, is looked up again among `items`: on its first row if it is listed,
/// else it stays.
pub open spec fn reselected(sel: Option<DirEntry>, items: Seq<DirEntry>, c0: usize, c: usize) -> bool {
    match sel {
        None => c == c0,
        Some(e) => if exists|k: int| 0 <= k < items.len() && same_path(#[trigger] items[k].path@, e.path@) {
            &&& c < items.len()
            &&& same_path(items[c as int].path@, e.path@)
            &&& forall|k: int| 0 <= k < c ==> !same_path(#[trigger] items[k].path@, e.path@)
        } else {
            c == c0
        },
    }
}

/// The entries of `all` directly inside `dir`, in list order.
pub fn entries_inside(all: &Vec<DirEntry>, dir: &str) -> (r: Vec<DirEntry>)
    ensures
        r@ == entries_in(all@, dir@),
{
    let d = canonical_chars(&chars_of(dir));
    let mut r: Vec<DirEntry> = Vec::new();
    let mut i: usize = 0;
    while i < all.len()
        invariant
            i <= all.len(),
            d@ == canonical(dir@),
            r@ == entries_in(all@.subrange(0, i as int), dir@),
        decreases all.len() - i,
    {
        assert(all@.subrange(0, i + 1).drop_last() =~= all@.subrange(0, i as int));
        let pc = chars_of(all[i].path.as_str());
        let inside = match parent_chars(&pc) {
            Some(v) => same_chars(&canonical_chars(&v), &d),
            None => false,
        };
        if inside {
            r.push(all[i].duplicate());
        }
        i = i + 1;
    }
    assert(all@.subrange(0, all.len() as int) =~= all@);
    r
}

/// The children of `dir` among `all`, listed in `mode` order.
pub fn children_sorted(all: &Vec<DirEntry>, dir: &str, mode: SortMode) -> (r: Vec<DirEntry>)
    ensures
        r@ == children(all@, dir@, mode),
{
    let kids = entries_inside(all, dir);
    let r = sort_entries(&kids, mode);
    proof {
        lemma_entry_order_total(kids@, mode);
        lemma_arrangement(kids@, entry_order(kids@, mode), r@);
    }
    r
}

fn push_forest(
    all: &Vec<DirEntry>,
    nav: &Navigation,
    kids: &Vec<DirEntry>,
    depth: u32,
    fuel: usize,
    out: &mut Vec<(DirEntry, u32)>,
)
    requires
        depth + fuel <= u32::MAX - 1,
    ensures
        final(out)@ == old(out)@ + forest(
            all@,
            kids@,
            depth,
            nav.expanded_set(),
            nav.mode_view(),
            fuel as nat,
        ),
    decreases fuel, kids.len(),
{
    let ghost exp = nav.expanded_set();
    let ghost mode = nav.mode_view();
    let ghost start = out@;
    let mode_now = nav.sort_mode();
    let mut k: usize = 0;
    while k < kids.len()
        invariant
            k <= kids.len(),
            depth + fuel <= u32::MAX - 1,
            exp == nav.expanded_set(),
            mode == nav.mode_view(),
            mode_now == mode,
            out@ == start + forest(all@, kids@.subrange(0, k as int), depth, exp, mode, fuel as nat),
        decreases kids.len() - k,
    {
        let ghost before = out@;
        let ghost pre = kids@.subrange(0, k as int);
        assert(kids@.subrange(0, k + 1).drop_last() =~= pre);
        assert(kids@.subrange(0, k + 1).last() == kids@[k as int]);
        let e = &kids[k];
        out.push((e.duplicate(), depth));
        if fuel > 0 && e.entry_type == EntryType::Directory && nav.is_expanded(e.path.as_str()) {
            let ch = children_sorted(all, e.path.as_str(), mode_now);
            push_forest(all, nav, &ch, depth + 1, fuel - 1, out);
            assert(out@ =~= before + subtree(all@, kids@[k as int], depth, exp, mode, fuel as nat));
        } else {
            assert(out@ =~= before + subtree(all@, kids@[k as int], depth, exp, mode, fuel as nat));
        }
        k = k + 1;
        assert(out@ =~= start + forest(all@, kids@.subrange(0, k as int), depth, exp, mode, fuel as nat));
    }
    assert(kids@.subrange(0, kids.len() as int) =~= kids@);
}

impl AppState {
    /// The rows of the expanded tree of the current directory.
    pub open spec fn tree_view(&self) -> Seq<(DirEntry, u32)> {
        expanded_tree(
            self.all_entries@,
            self.current_path@,
            self.navigation.expanded_set(),
            self.navigation.mode_view(),
        )
    }

    /// The rows shown: the tree, or the filter's matches with their scores
    /// while a query is set.
    pub open spec fn visible_rows(&self) -> Seq<(DirEntry, u32)> {
        if self.navigation.query_view() is None {
            self.tree_view()
        } else {
            self.navigation.results_view()
        }
    }

    /// The entries directly inside `parent_path`, in the active listing order.
    pub fn get_children(&self, parent_path: &str) -> (r: Vec<DirEntry>)
        ensures
            r@ == children(self.all_entries@, parent_path@, self.navigation.mode_view()),
    {
        children_sorted(&self.all_entries, parent_path, self.navigation.sort_mode())
    }

    /// The tree rows with their depths: each expanded directory is followed by
    /// its children, one level deeper.
    pub fn build_expanded_tree(&self) -> (r: Vec<(DirEntry, u32)>)
        ensures
            r@ == self.tree_view(),
    {
        let top = self.get_children(self.current_path.as_str());
        let fuel: usize = 4294967294usize;
        let mut out: Vec<(DirEntry, u32)> = Vec::new();
        push_forest(&self.all_entries, &self.navigation, &top, 0, fuel, &mut out);
        assert(out@ =~= self.tree_view());
        out
    }

    /// The rows shown, with the tree depth of each (or its match score while a
    /// query is set).
    pub fn visible_items(&self) -> (r: Vec<(DirEntry, u32)>)
        ensures
            r@ == self.visible_rows(),
    {
        if self.navigation.filter_query().is_none() {
            self.build_expanded_tree()
        } else {
            self.navigation.visible_items_with_scores()
        }
    }

    /// Relists the navigation rows from the tree when no query is set,
    /// keeping the cursor on the selected entry.
    pub fn sync_navigation_items(&mut self)
        ensures
            old(self).navigation.query_view() is None ==> {
                &&& final(self).navigation.items_view() == row_entries(old(self).tree_view())
                &&& reselected(
                    old(self).navigation.selection_view(),
                    row_entries(old(self).tree_view()),
                    old(self).navigation.cursor_view(),
                    final(self).navigation.cursor_view(),
                )
                &&& final(self).navigation.expanded_set() == old(self).navigation.expanded_set()
                &&& final(self).navigation.query_view() == old(self).navigation.query_view()
                &&& final(self).navigation.mode_view() == old(self).navigation.mode_view()
                &&& final(self).navigation.results_view() == old(self).navigation.results_view()
            },
            old(self).navigation.query_view() is Some ==> final(self).navigation == old(self).navigation,
            final(self).current_path == old(self).current_path,
            final(self).all_entries == old(self).all_entries,
            final(self).scan_applied == old(self).scan_applied,
            final(self).git_ctx == old(self).git_ctx,
            final(self).tabs == old(self).tabs,
            final(self).active_tab == old(self).active_tab,
            final(self).config == old(self).config,
            final(self).selected_paths == old(self).selected_paths,
            final(self).modal_mode == old(self).modal_mode,
            final(self).notification == old(self).notification,
            *final(self) == (AppState {
                navigation: final(self).navigation,
                ..*old(self)
            }),
    {
        if self.navigation.filter_query().is_none() {
            let tree = self.build_expanded_tree();
            let mut flat: Vec<DirEntry> = Vec::new();
            let mut i: usize = 0;
            while i < tree.len()
                invariant
                    i <= tree.len(),
                    flat@ == row_entries(tree@.subrange(0, i as int)),
                decreases tree.len() - i,
            {
                flat.push(tree[i].0.duplicate());
                i = i + 1;
                assert(flat@ =~= row_entries(tree@.subrange(0, i as int)));
            }
            assert(tree@.subrange(0, tree.len() as int) =~= tree@);
            let selected = self.navigation.current_selection();
            self.navigation.update_items_raw(flat);
            match selected {
                Some(e) => {
                    self.navigation.select_path(e.path.as_str());
                },
                None => {},
            }
        }
    }
}

} // verus!
