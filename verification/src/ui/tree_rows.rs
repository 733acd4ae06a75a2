use vstd::prelude::*;
use crate::paths::{is_under, is_under_chars, join, join_chars, relative_to, relative_to_chars};
use crate::text::{chars_of, push_str, same_chars, starts_with_chars, string_of};
use crate::app::AppState;
use crate::config::{contains_str, lists_path, strs};
use crate::fs::walker::{format_size, size_text, DirEntry};
use crate::paths::{file_name_or_empty, file_name_string};
use crate::ui::preview_text::{sanitize_line, sanitized};
use crate::ui::view::{get_icon, icon_for, list_window_start, window_start_spec};

verus! {

/// The texts of a list of strings.
pub open spec fn texts(v: Seq<String>) -> Seq<Seq<char>> {
    v.map_values(|s: String| s@)
}

/// `p` is the directory `d` or lies below it, component by component, as
/// `Path::starts_with` tells it for paths without empty or `.` components.
pub open spec fn at_or_under(p: Seq<char>, d: Seq<char>) -> bool {
    ||| p == d
    ||| (d.len() > 0 && d.last() == '/' && p.len() > d.len() && p.subrange(0, d.len() as int) == d)
    ||| is_under(p, d)
}

/// Computes `at_or_under`.
pub fn at_or_under_chars(p: &Vec<char>, d: &Vec<char>) -> (r: bool)
    ensures
        r == at_or_under(p@, d@),
{
    if same_chars(p, d) {
        return true;
    }
    if d.len() > 0 && d[d.len() - 1] == '/' && p.len() > d.len() && starts_with_chars(p, d) {
        return true;
    }
    is_under_chars(p, d)
}

/// The positions of the separators in a relative path, in order.
pub open spec fn sep_positions(rel: Seq<char>) -> Seq<int>
    decreases rel.len(),
{
    if rel.len() == 0 {
        Seq::empty()
    } else {
        let s = sep_positions(rel.drop_last());
        if rel.last() == '/' {
            s.push(rel.len() - 1)
        } else {
            s
        }
    }
}

fn separators(rel: &Vec<char>) -> (r: Vec<usize>)
    ensures
        r@.map_values(|x: usize| x as int) == sep_positions(rel@),
        forall|j: int| 0 <= j < r.len() ==> r@[j] < rel.len(),
{
    let mut r: Vec<usize> = Vec::new();
    let mut k: usize = 0;
    while k < rel.len()
        invariant
            k <= rel.len(),
            r@.map_values(|x: usize| x as int) == sep_positions(rel@.subrange(0, k as int)),
            forall|j: int| 0 <= j < r.len() ==> r@[j] < k,
        decreases rel.len() - k,
    {
        assert(rel@.subrange(0, k as int + 1).drop_last() =~= rel@.subrange(0, k as int));
        if rel[k] == '/' {
            r.push(k);
            assert(r@.map_values(|x: usize| x as int) =~= sep_positions(rel@.subrange(0, k as int)).push(
                k as int,
            ));
        }
        k = k + 1;
    }
    assert(rel@.subrange(0, rel.len() as int) =~= rel@);
    r
}

/// Some row after `idx` lies under `par` but not under `anc`: the ancestor
/// `anc` has a later sibling on screen.
pub open spec fn later_sibling(w: Seq<Seq<char>>, idx: int, par: Seq<char>, anc: Seq<char>) -> bool {
    exists|j: int| idx < j < w.len() && at_or_under(#[trigger] w[j], par) && !at_or_under(w[j], anc)
}

fn later_sibling_exec(window: &Vec<String>, idx: usize, par: &Vec<char>, anc: &Vec<char>) -> (r: bool)
    requires
        idx < window.len(),
    ensures
        r == later_sibling(texts(window@), idx as int, par@, anc@),
{
    let ghost w = texts(window@);
    let mut j: usize = idx + 1;
    while j < window.len()
        invariant
            idx < j <= window.len(),
            w == texts(window@),
            forall|m: int| idx < m < j ==> !(at_or_under(#[trigger] w[m], par@) && !at_or_under(w[m], anc@)),
        decreases window.len() - j,
    {
        let p = chars_of(window[j].as_str());
        assert(p@ == w[j as int]);
        if at_or_under_chars(&p, par) && !at_or_under_chars(&p, anc) {
            return true;
        }
        j = j + 1;
    }
    false
}

/// The directory that the first `j + 1` components of `rel` name below `root`.
pub open spec fn ancestor(root: Seq<char>, rel: Seq<char>, seps: Seq<int>, j: int) -> Seq<char> {
    join(root, rel.subrange(0, seps[j]))
}

/// The guide drawn for the ancestor at level `j` of the row `idx`: a branch
/// at the row's own level, a line above it while the ancestor has a later
/// sibling on screen, blank otherwise.
pub open spec fn guide_piece(w: Seq<Seq<char>>, idx: int, root: Seq<char>, rel: Seq<char>, seps: Seq<int>, j: int) -> Seq<char> {
    let anc = ancestor(root, rel, seps, j);
    let par = if j == 0 {
        root
    } else {
        ancestor(root, rel, seps, j - 1)
    };
    let later = later_sibling(w, idx, par, anc);
    if j == seps.len() - 1 {
        if later {
            "  ├── "@
        } else {
            "  └── "@
        }
    } else if later {
        "  │   "@
    } else {
        "      "@
    }
}

/// The guides of the first `n` levels.
pub open spec fn guides(w: Seq<Seq<char>>, idx: int, root: Seq<char>, rel: Seq<char>, seps: Seq<int>, n: nat) -> Seq<char>
    decreases n,
{
    if n == 0 {
        Seq::empty()
    } else {
        guides(w, idx, root, rel, seps, (n - 1) as nat) + guide_piece(w, idx, root, rel, seps, n - 1)
    }
}

/// The indentation of the row `idx` of the window `w` below the directory
/// `root`: nothing for a row that is not below it, one space at the first
/// level, and tree guides deeper down.
pub open spec fn tree_indent_spec(w: Seq<Seq<char>>, idx: int, root: Seq<char>) -> Seq<char> {
    let p = w[idx];
    if p == root || !at_or_under(p, root) {
        Seq::empty()
    } else {
        let rel = relative_to(p, root);
        let seps = sep_positions(rel);
        if seps.len() == 0 {
            " "@
        } else {
            guides(w, idx, root, rel, seps, seps.len())
        }
    }
}

fn prefix_chars(s: &Vec<char>, n: usize) -> (r: Vec<char>)
    requires
        n <= s.len(),
    ensures
        r@ == s@.subrange(0, n as int),
{
    let mut r: Vec<char> = Vec::new();
    let mut i: usize = 0;
    while i < n
        invariant
            i <= n <= s.len(),
            r@ == s@.subrange(0, i as int),
        decreases n - i,
    {
        r.push(s[i]);
        i = i + 1;
        assert(r@ =~= s@.subrange(0, i as int));
    }
    r
}

/// The indentation drawn before the row `idx` of the window `window` (the
/// paths of the rows on screen) listed below `root`.
pub fn tree_indent(window: &Vec<String>, idx: usize, root: &str) -> (r: String)
    requires
        idx < window.len(),
    ensures
        r@ == tree_indent_spec(texts(window@), idx as int, root@),
{
    let ghost w = texts(window@);
    let p = chars_of(window[idx].as_str());
    let rc = chars_of(root);
    assert(p@ == w[idx as int]);
    if same_chars(&p, &rc) || !at_or_under_chars(&p, &rc) {
        return String::new();
    }
    let rel = relative_to_chars(&p, &rc);
    let seps = separators(&rel);
    let ghost sv = seps@.map_values(|x: usize| x as int);
    if seps.len() == 0 {
        return String::from_str(" ");
    }
    let mut out: Vec<char> = Vec::new();
    let mut j: usize = 0;
    while j < seps.len()
        invariant
            j <= seps.len(),
            w == texts(window@),
            idx < window.len(),
            sv == seps@.map_values(|x: usize| x as int),
            sv == sep_positions(rel@),
            forall|m: int| 0 <= m < seps.len() ==> seps@[m] < rel.len(),
            out@ == guides(w, idx as int, rc@, rel@, sv, j as nat),
        decreases seps.len() - j,
    {
        let anc = join_chars(&rc, &prefix_chars(&rel, seps[j]));
        let par = if j == 0 {
            rc.clone()
        } else {
            join_chars(&rc, &prefix_chars(&rel, seps[j - 1]))
        };
        assert(anc@ == ancestor(rc@, rel@, sv, j as int));
        assert(j > 0 ==> par@ == ancestor(rc@, rel@, sv, j - 1));
        let later = later_sibling_exec(window, idx, &par, &anc);
        if j + 1 == seps.len() {
            if later {
                push_str(&mut out, "  ├── ");
            } else {
                push_str(&mut out, "  └── ");
            }
        } else if later {
            push_str(&mut out, "  │   ");
        } else {
            push_str(&mut out, "      ");
        }
        j = j + 1;
    }
    string_of(&out)
}

/// How an entry is marked for the clipboard.
#[derive(Debug, Clone, Copy, PartialEq, Eq, Structural)]
pub enum RowTag {
    Yanked,
    Cut,
    Plain,
}

/// What one row of the directory tree shows.
#[derive(Debug, Clone)]
pub struct TreeRow {
    /// Marked for a batch operation.
    pub marked: bool,
    /// The match score, shown while a filter query is typed.
    pub score_badge: Option<u32>,
    /// Tree guides before the icon.
    pub indent: String,
    pub icon: String,
    /// The file name, and where a symbolic link points.
    pub name: String,
    /// The size, unless it is not known yet.
    pub size_label: Option<String>,
    pub tag: RowTag,
    /// The row under the cursor.
    pub is_cursor: bool,
    /// Modification time, in nanoseconds since the Unix epoch.
    pub mtime: i128,
}

/// The texts a row shows.
pub open spec fn row_view(r: TreeRow) -> (bool, Option<u32>, Seq<char>, Seq<char>, Seq<char>, Option<Seq<char>>, RowTag, bool, i128) {
    (
        r.marked,
        r.score_badge,
        r.indent@,
        r.icon@,
        r.name@,
        match r.size_label {
            Some(l) => Some(l@),
            None => None,
        },
        r.tag,
        r.is_cursor,
        r.mtime,
    )
}

/// The name shown for an entry: its sanitized file name, followed by the
/// target of a symbolic link.
pub open spec fn row_name(e: DirEntry) -> Seq<char> {
    let n = sanitized(file_name_or_empty(e.path@));
    match e.symlink_target {
        Some(t) => n + " -> "@ + t@,
        None => n,
    }
}

/// The clipboard mark of a path: copied first, then cut (paths compared as
/// `Path` compares them).
pub open spec fn row_tag(p: Seq<char>, yanked: Seq<Seq<char>>, cut: Seq<Seq<char>>) -> RowTag {
    if lists_path(yanked, p) {
        RowTag::Yanked
    } else if lists_path(cut, p) {
        RowTag::Cut
    } else {
        RowTag::Plain
    }
}

/// What the row `idx` of the window `w` shows for the entry `e` with the
/// match score `score`.
pub open spec fn row_spec(
    w: Seq<Seq<char>>,
    idx: int,
    root: Seq<char>,
    e: DirEntry,
    score: u32,
    show_scores: bool,
    is_cursor: bool,
    marked: Seq<Seq<char>>,
    yanked: Seq<Seq<char>>,
    cut: Seq<Seq<char>>,
) -> (bool, Option<u32>, Seq<char>, Seq<char>, Seq<char>, Option<Seq<char>>, RowTag, bool, i128) {
    (
        lists_path(marked, e.path@),
        if show_scores && score > 0 {
            Some(score)
        } else {
            None
        },
        tree_indent_spec(w, idx, root),
        icon_for(e.path@, e.entry_type),
        row_name(e),
        if e.size == u64::MAX {
            None
        } else {
            Some(size_text(e.size))
        },
        row_tag(e.path@, yanked, cut),
        is_cursor,
        e.mtime,
    )
}

/// Builds the row `idx` of the window `window` for the entry `e`.
pub fn tree_row(
    window: &Vec<String>,
    idx: usize,
    root: &str,
    e: &DirEntry,
    score: u32,
    show_scores: bool,
    is_cursor: bool,
    marked: &Vec<String>,
    yanked: &Vec<String>,
    cut: &Vec<String>,
) -> (r: TreeRow)
    requires
        idx < window.len(),
    ensures
        row_view(r) == row_spec(
            texts(window@),
            idx as int,
            root@,
            *e,
            score,
            show_scores,
            is_cursor,
            strs(marked@),
            strs(yanked@),
            strs(cut@),
        ),
{
    let mut name = chars_of(sanitize_line(file_name_string(e.path.as_str()).as_str()).as_str());
    match &e.symlink_target {
        Some(t) => {
            push_str(&mut name, " -> ");
            push_str(&mut name, t.as_str());
        },
        None => {},
    }
    let tag = if contains_str(yanked, e.path.as_str()) {
        RowTag::Yanked
    } else if contains_str(cut, e.path.as_str()) {
        RowTag::Cut
    } else {
        RowTag::Plain
    };
    let size_label = if e.size == u64::MAX {
        None
    } else {
        Some(format_size(e.size))
    };
    let r = TreeRow {
        marked: contains_str(marked, e.path.as_str()),
        score_badge: if show_scores && score > 0 {
            Some(score)
        } else {
            None
        },
        indent: tree_indent(window, idx, root),
        icon: String::from_str(get_icon(e.path.as_str(), e.entry_type)),
        name: string_of(&name),
        size_label,
        tag,
        is_cursor,
        mtime: e.mtime,
    };
    assert(texts(marked@) == strs(marked@));
    r
}

/// The paths of the rows `start..end` of `rows`.
pub open spec fn window_paths(rows: Seq<(DirEntry, u32)>, start: int, end: int) -> Seq<Seq<char>> {
    rows.subrange(start, end).map_values(|x: (DirEntry, u32)| x.0.path@)
}

impl AppState {
    /// Whether a non-empty filter query is typed, so that match scores show.
    pub open spec fn show_scores(&self) -> bool {
        match self.navigation.query_view() {
            Some(q) => q.len() > 0,
            None => false,
        }
    }

    /// The rows of the directory tree drawn in a pane of `height` lines, two of
    /// which are its border: the index of the first row shown, and the rows.
    pub fn tree_rows(&self, height: usize) -> (r: (usize, Vec<TreeRow>))
        ensures
            ({
                let rows = self.visible_rows();
                let h: nat = if height >= 2 {
                    (height - 2) as nat
                } else {
                    0
                };
                let cursor = self.navigation.cursor_view();
                &&& r.0 == window_start_spec(rows.len(), h, cursor as nat)
                &&& r.0 + r.1.len() == if r.0 + h < rows.len() {
                    r.0 + h
                } else {
                    rows.len() as int
                }
                &&& forall|i: int|
                    0 <= i < r.1.len() ==> #[trigger] row_view(r.1@[i]) == row_spec(
                        window_paths(rows, r.0 as int, r.0 + r.1.len()),
                        i,
                        self.current_path@,
                        rows[r.0 + i].0,
                        rows[r.0 + i].1,
                        self.show_scores(),
                        r.0 + i == cursor,
                        strs(self.selected_paths@),
                        strs(self.yanked_files@),
                        strs(self.cut_files@),
                    )
            }),
    {
        let rows = self.visible_items();
        let total = rows.len();
        let h: usize = if height >= 2 {
            height - 2
        } else {
            0
        };
        let cursor = self.navigation.cursor();
        let start = list_window_start(total, h, cursor);
        let end: usize = if start < total && total - start > h {
            start + h
        } else {
            total
        };
        assert(start <= end);
        let mut window: Vec<String> = Vec::new();
        let mut k: usize = start;
        while k < end
            invariant
                start <= k <= end <= rows.len(),
                window@.len() == k - start,
                forall|m: int| 0 <= m < window.len() ==> #[trigger] window@[m]@ == rows@[start + m].0.path@,
            decreases end - k,
        {
            window.push(rows[k].0.path.clone());
            k = k + 1;
        }
        let ghost wp = window_paths(rows@, start as int, end as int);
        assert(texts(window@) =~= wp);
        let show = match self.navigation.filter_query() {
            Some(q) => !q.as_str().is_empty(),
            None => false,
        };
        let mut out: Vec<TreeRow> = Vec::new();
        let mut i: usize = 0;
        while i < end - start
            invariant
                start <= end <= rows.len(),
                rows@ == self.visible_rows(),
                window.len() == end - start,
                texts(window@) == wp,
                show == self.show_scores(),
                cursor == self.navigation.cursor_view(),
                out.len() == i,
                i <= end - start,
                forall|m: int|
                    0 <= m < i ==> #[trigger] row_view(out@[m]) == row_spec(
                        wp,
                        m,
                        self.current_path@,
                        rows@[start + m].0,
                        rows@[start + m].1,
                        show,
                        start + m == cursor,
                        strs(self.selected_paths@),
                        strs(self.yanked_files@),
                        strs(self.cut_files@),
                    ),
            decreases end - start - i,
        {
            let row = tree_row(
                &window,
                i,
                self.current_path.as_str(),
                &rows[start + i].0,
                rows[start + i].1,
                show,
                start + i == cursor,
                &self.selected_paths,
                &self.yanked_files,
                &self.cut_files,
            );
            out.push(row);
            i = i + 1;
        }
        (start, out)
    }
}

} // verus!
