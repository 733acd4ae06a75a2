use vstd::prelude::*;
use crate::app::{AppState, SortMode};
use crate::fs::walker::{format_size, size_text};
use crate::paths::{file_name, file_name_chars};
use crate::text::{chars_of, decimal, push_chars, push_decimal, push_str, string_of};
use crate::ui::preview_text::{sanitize_line, sanitized};

verus! {

/// The label of a listing order in the status line.
pub open spec fn sort_label_spec(m: SortMode) -> Seq<char> {
    match m {
        SortMode::SizeDesc => " sort: size↓ "@,
        SortMode::NameAsc => " sort: name↑ "@,
        SortMode::MtimeDesc => " sort: mtime↓ "@,
    }
}

/// The label of a listing order in the status line.
pub fn sort_label(m: SortMode) -> (r: &'static str)
    ensures
        r@ == sort_label_spec(m),
{
    match m {
        SortMode::SizeDesc => " sort: size↓ ",
        SortMode::NameAsc => " sort: name↑ ",
        SortMode::MtimeDesc => " sort: mtime↓ ",
    }
}

/// The spinner text shown while a scan runs, empty otherwise.
pub fn scan_progress_label(scanning: bool) -> (r: String)
    ensures
        r@ == if scanning {
            "⣾ Scanning…"@
        } else {
            Seq::<char>::empty()
        },
{
    if scanning {
        String::from_str("⣾ Scanning…")
    } else {
        String::new()
    }
}

/// The fields of the status line.
#[derive(Debug, Clone)]
pub struct StatusView {
    /// The current directory, made safe to draw.
    pub path: String,
    /// How many entries the listing holds.
    pub entries: usize,
    /// Whether the spinner shows: a scan is running.
    pub scanning: bool,
    /// The total size of the scanned tree.
    pub size_label: String,
    pub sort_label: String,
    /// The branch and the number of changed files, inside a repository.
    pub git: Option<(String, usize)>,
}

/// The texts of the status line.
pub open spec fn status_texts(v: StatusView) -> (Seq<char>, usize, bool, Seq<char>, Seq<char>, Option<(Seq<char>, usize)>) {
    (
        v.path@,
        v.entries,
        v.scanning,
        v.size_label@,
        v.sort_label@,
        match v.git {
            Some(g) => Some((g.0@, g.1)),
            None => None,
        },
    )
}

/// The label of the tab `i` showing `path`: its number from one and the
/// directory's name (the whole path when it has none).
pub open spec fn tab_label_spec(i: nat, path: Seq<char>) -> Seq<char> {
    " "@ + decimal(i + 1) + ": "@ + match file_name(path) {
        Some(n) => n,
        None => path,
    } + " "@
}

/// The prompt of the search line.
pub open spec fn search_prompt_spec(query: Seq<char>, count: nat) -> Seq<char> {
    "Search: "@ + query + " ("@ + decimal(if query.len() == 0 {
        0
    } else {
        count
    }) + " matches)"@
}

impl AppState {
    /// The status line, given whether a scan runs and the total size it has
    /// measured so far.
    pub fn status_view(&self, scanning: bool, total_size: u64) -> (v: StatusView)
        ensures
            status_texts(v) == (
                sanitized(self.current_path@),
                self.navigation.visible_view().len() as usize,
                scanning,
                size_text(total_size),
                sort_label_spec(self.navigation.mode_view()),
                match self.git_ctx {
                    Some(g) => Some((g.branch@, g.dirty_count)),
                    None => None,
                },
            ),
    {
        let git = match &self.git_ctx {
            Some(g) => Some((g.branch.clone(), g.dirty_count)),
            None => None,
        };
        StatusView {
            path: sanitize_line(self.current_path.as_str()),
            entries: self.navigation.visible_items().len(),
            scanning,
            size_label: format_size(total_size),
            sort_label: String::from_str(sort_label(self.navigation.sort_mode())),
            git,
        }
    }

    /// The labels of the tabs, each with whether it is the active one.
    pub fn tab_labels(&self) -> (r: Vec<(String, bool)>)
        ensures
            r.len() == self.tabs.len(),
            forall|i: int|
                0 <= i < r.len() ==> (#[trigger] r@[i]).0@ == tab_label_spec(i as nat, self.tabs@[i].current_path@)
                    && r@[i].1 == (i == self.active_tab),
    {
        let mut r: Vec<(String, bool)> = Vec::new();
        let mut i: usize = 0;
        while i < self.tabs.len()
            invariant
                i <= self.tabs.len(),
                r.len() == i,
                forall|k: int|
                    0 <= k < i ==> (#[trigger] r@[k]).0@ == tab_label_spec(k as nat, self.tabs@[k].current_path@)
                        && r@[k].1 == (k == self.active_tab),
            decreases self.tabs.len() - i,
        {
            let p = chars_of(self.tabs[i].current_path.as_str());
            let mut out: Vec<char> = Vec::new();
            push_str(&mut out, " ");
            push_decimal(&mut out, (i + 1) as u64);
            push_str(&mut out, ": ");
            match file_name_chars(&p) {
                Some(n) => push_chars(&mut out, &n),
                None => push_chars(&mut out, &p),
            }
            push_str(&mut out, " ");
            r.push((string_of(&out), i == self.active_tab));
            i = i + 1;
        }
        r
    }

    /// The prompt of the search line: the query and how many entries match
    /// it (none while it is empty).
    pub fn search_prompt(&self) -> (r: String)
        ensures
            r@ == search_prompt_spec(
                match self.navigation.query_view() {
                    Some(q) => q,
                    None => Seq::empty(),
                },
                self.visible_rows().len(),
            ),
    {
        let q = match self.navigation.filter_query() {
            Some(q) => q,
            None => String::new(),
        };
        let count: usize = if q.as_str().is_empty() {
            0
        } else {
            self.visible_items().len()
        };
        let mut out: Vec<char> = Vec::new();
        push_str(&mut out, "Search: ");
        push_str(&mut out, q.as_str());
        push_str(&mut out, " (");
        push_decimal(&mut out, count as u64);
        push_str(&mut out, " matches)");
        string_of(&out)
    }
}

} // verus!
