use vstd::prelude::*;
use crate::app::{AppState, ModalMode};
use crate::config::strs;
use crate::keys::{parse_usize, parsed_usize};
use crate::text::{chars_of, push_str, string_of};

verus! {

/// How a row of a list dialog is highlighted.
#[derive(Debug, Clone, Copy, PartialEq, Eq, Structural)]
pub enum RowMark {
    /// The row that the typed number picks.
    Typed,
    /// The highlighted row.
    Cursor,
    Plain,
}

/// One row of a list dialog: its number (from one) and its path.
#[derive(Debug, Clone)]
pub struct DialogRow {
    pub mark: RowMark,
    pub number: usize,
    pub path: String,
}

/// The bottom line of a list dialog.
#[derive(Debug, Clone)]
pub enum DialogFooter {
    /// The digits typed so far, with the keys that jump or cancel.
    GoTo(String),
    /// The keys of the dialog.
    Keys,
    Blank,
}

/// What a list dialog shows inside its border.
#[derive(Debug, Clone)]
pub enum DialogBody {
    Rows(Vec<DialogRow>),
    Message(String),
}

/// The bookmarks or recent-directories dialog as drawn.
#[derive(Debug, Clone)]
pub struct ListDialog {
    pub title: String,
    pub footer: DialogFooter,
    pub body: DialogBody,
}

/// The title of a list dialog.
pub open spec fn dialog_title(m: ModalMode) -> Seq<char> {
    match m {
        ModalMode::Bookmarks => " Bookmarks persistence "@,
        ModalMode::Recent => " Recently Visited Directories "@,
        _ => Seq::empty(),
    }
}

/// The text shown when a list dialog has no rows.
pub open spec fn empty_message(m: ModalMode) -> Seq<char> {
    match m {
        ModalMode::Bookmarks => "\n\n\n  No bookmarks saved yet.\n\n  Press 'm' in the directory tree to bookmark any directory."@,
        ModalMode::Recent => "\n\n\n  No recently visited directories."@,
        _ => Seq::empty(),
    }
}

/// The paths a list dialog lists.
pub open spec fn dialog_paths(s: AppState) -> Seq<Seq<char>> {
    match s.modal_mode {
        ModalMode::Bookmarks => strs(s.config.bookmarks@),
        ModalMode::Recent => strs(s.config.recent@),
        _ => Seq::empty(),
    }
}

/// How the row `i` is marked: the typed number picks row `n - 1` (row 0 for
/// `0`), else the highlighted row is marked.
pub open spec fn row_mark(input: Seq<char>, selected: usize, i: int) -> RowMark {
    let typed = input.len() > 0 && match parsed_usize(input) {
        Some(n) => (if n >= 1 {
            n - 1
        } else {
            0
        }) == i,
        None => false,
    };
    if typed {
        RowMark::Typed
    } else if i == selected {
        RowMark::Cursor
    } else {
        RowMark::Plain
    }
}

/// The dialog a state shows for a list modal, as texts: title, footer (the
/// typed digits, or whether the keys show), and the rows or the message.
pub open spec fn dialog_spec(s: AppState) -> (Seq<char>, Option<Seq<char>>, bool, Option<Seq<(RowMark, usize, Seq<char>)>>, Seq<char>) {
    let paths = dialog_paths(s);
    (
        dialog_title(s.modal_mode),
        if s.modal_input@.len() > 0 {
            Some(s.modal_input@)
        } else {
            None
        },
        s.modal_input@.len() == 0 && (s.modal_mode == ModalMode::Bookmarks || s.modal_mode == ModalMode::Recent),
        if paths.len() == 0 {
            None
        } else {
            Some(Seq::new(paths.len(), |i: int| (row_mark(s.modal_input@, s.modal_selected_index, i), (i + 1) as usize, paths[i])))
        },
        if paths.len() == 0 {
            empty_message(s.modal_mode)
        } else {
            Seq::empty()
        },
    )
}

/// The texts of a dialog, in the shape of `dialog_spec`.
pub open spec fn dialog_view(d: ListDialog) -> (Seq<char>, Option<Seq<char>>, bool, Option<Seq<(RowMark, usize, Seq<char>)>>, Seq<char>) {
    (
        d.title@,
        match d.footer {
            DialogFooter::GoTo(t) => Some(t@),
            _ => None,
        },
        d.footer is Keys,
        match d.body {
            DialogBody::Rows(v) => Some(v@.map_values(|r: DialogRow| (r.mark, r.number, r.path@))),
            DialogBody::Message(_) => None,
        },
        match d.body {
            DialogBody::Rows(_) => Seq::empty(),
            DialogBody::Message(m) => m@,
        },
    )
}

fn literal(m: ModalMode, bookmarks: &'static str, recent: &'static str) -> (r: String)
    ensures
        r@ == match m {
            ModalMode::Bookmarks => bookmarks@,
            ModalMode::Recent => recent@,
            _ => Seq::empty(),
        },
{
    match m {
        ModalMode::Bookmarks => String::from_str(bookmarks),
        ModalMode::Recent => String::from_str(recent),
        _ => String::new(),
    }
}

impl AppState {
    /// The bookmarks or recent-directories dialog as it is drawn: the other
    /// modals (but the two confirmations, drawn on their own) show an empty
    /// frame.
    pub fn list_dialog(&self) -> (d: ListDialog)
        ensures
            dialog_view(d) == dialog_spec(*self),
    {
        let title = literal(self.modal_mode, " Bookmarks persistence ", " Recently Visited Directories ");
        let typed = !self.modal_input.as_str().is_empty();
        let footer = if typed {
            DialogFooter::GoTo(self.modal_input.clone())
        } else {
            match self.modal_mode {
                ModalMode::Bookmarks => DialogFooter::Keys,
                ModalMode::Recent => DialogFooter::Keys,
                _ => DialogFooter::Blank,
            }
        };
        let empty: Vec<String> = Vec::new();
        let paths: &Vec<String> = match self.modal_mode {
            ModalMode::Bookmarks => &self.config.bookmarks,
            ModalMode::Recent => &self.config.recent,
            _ => &empty,
        };
        assert(strs(paths@) == dialog_paths(*self));
        if paths.len() == 0 {
            let msg = literal(
                self.modal_mode,
                "\n\n\n  No bookmarks saved yet.\n\n  Press 'm' in the directory tree to bookmark any directory.",
                "\n\n\n  No recently visited directories.",
            );
            let d = ListDialog { title, footer, body: DialogBody::Message(msg) };
            return d;
        }
        let picked: Option<usize> = if typed {
            parse_usize(self.modal_input.as_str())
        } else {
            None
        };
        let mut rows: Vec<DialogRow> = Vec::new();
        let mut i: usize = 0;
        while i < paths.len()
            invariant
                i <= paths.len(),
                rows.len() == i,
                typed == (self.modal_input@.len() > 0),
                match picked {
                    Some(n) => typed && parsed_usize(self.modal_input@) == Some(n as nat),
                    None => !typed || parsed_usize(self.modal_input@) is None,
                },
                forall|k: int|
                    0 <= k < i ==> (#[trigger] rows@[k]).mark == row_mark(self.modal_input@, self.modal_selected_index, k)
                        && rows@[k].number == k + 1 && rows@[k].path@ == paths@[k]@,
            decreases paths.len() - i,
        {
            let hit = match picked {
                Some(n) => n.saturating_sub(1) == i,
                None => false,
            };
            let mark = if hit {
                RowMark::Typed
            } else if i == self.modal_selected_index {
                RowMark::Cursor
            } else {
                RowMark::Plain
            };
            rows.push(DialogRow { mark, number: i + 1, path: paths[i].clone() });
            i = i + 1;
        }
        let d = ListDialog { title, footer, body: DialogBody::Rows(rows) };
        assert(rows@.map_values(|r: DialogRow| (r.mark, r.number, r.path@)) =~= Seq::new(
            paths.len() as nat,
            |k: int| (row_mark(self.modal_input@, self.modal_selected_index, k), (k + 1) as usize, strs(paths@)[k]),
        ));
        d
    }
}

/// The number of bytes UTF-8 takes for `c`.
pub open spec fn utf8_width(c: char) -> nat {
    let u = c as u32;
    if u < 0x80 {
        1
    } else if u < 0x800 {
        2
    } else if u < 0x10000 {
        3
    } else {
        4
    }
}

/// The number of bytes UTF-8 takes for `s`, as `str::len` counts them.
pub open spec fn utf8_len(s: Seq<char>) -> nat
    decreases s.len(),
{
    if s.len() == 0 {
        0
    } else {
        utf8_width(s[0]) + utf8_len(s.drop_first())
    }
}

/// The bytes of the characters of `s` from `k` on.
pub open spec fn tail_bytes(s: Seq<char>, k: int) -> nat {
    utf8_len(s.subrange(k, s.len() as int))
}

fn char_width(c: char) -> (r: usize)
    ensures
        r == utf8_width(c),
{
    let u = c as u32;
    if u < 0x80 {
        1
    } else if u < 0x800 {
        2
    } else if u < 0x10000 {
        3
    } else {
        4
    }
}

proof fn lemma_tail_step(s: Seq<char>, k: int)
    requires
        0 < k <= s.len(),
    ensures
        tail_bytes(s, k - 1) == utf8_width(s[k - 1]) + tail_bytes(s, k),
{
    assert(s.subrange(k - 1, s.len() as int).drop_first() =~= s.subrange(k, s.len() as int));
}

proof fn lemma_tail_decreasing(s: Seq<char>, a: int, b: int)
    requires
        0 <= a < b <= s.len(),
    ensures
        tail_bytes(s, a) > tail_bytes(s, b),
    decreases b - a,
{
    lemma_tail_step(s, b);
    if a < b - 1 {
        lemma_tail_decreasing(s, a, b - 1);
    }
}

/// A path as a dialog shows it: a path of more than 42 bytes becomes `...`
/// and its last 39 bytes.
pub open spec fn shortened(s: Seq<char>) -> Seq<char> {
    if utf8_len(s) > 42 {
        "..."@ + s.subrange(choose|k: int| 0 <= k <= s.len() && tail_bytes(s, k) == 39, s.len() as int)
    } else {
        s
    }
}

/// The last 39 bytes of `s` start at a character: slicing them out does not
/// panic.
pub open spec fn tail_splits(s: Seq<char>) -> bool {
    utf8_len(s) > 42 ==> exists|k: int| 0 <= k <= s.len() && tail_bytes(s, k) == 39
}

/// Shortens a path for a dialog.
pub fn shorten_path(p: &str) -> (r: String)
    requires
        tail_splits(p@),
    ensures
        r@ == shortened(p@),
{
    let cs = chars_of(p);
    let n = cs.len();
    let mut total: usize = 0;
    let mut i: usize = n;
    proof {
        assert(cs@.subrange(n as int, n as int).len() == 0);
    }
    while i > 0 && total <= 42
        invariant
            i <= n == cs.len(),
            cs@ == p@,
            total == tail_bytes(cs@, i as int),
            total <= 42 + 4,
        decreases i,
    {
        proof {
            lemma_tail_step(cs@, i as int);
        }
        total = total + char_width(cs[i - 1]);
        i = i - 1;
    }
    assert(cs@.subrange(0, n as int) =~= cs@);
    proof {
        if i > 0 {
            lemma_tail_decreasing(cs@, 0, i as int);
        }
    }
    if total <= 42 {
        return String::from_str(p);
    }
    let mut acc: usize = 0;
    let mut k: usize = n;
    while k > 0 && acc < 39
        invariant
            k <= n == cs.len(),
            cs@ == p@,
            acc == tail_bytes(cs@, k as int),
            acc < 39 + 4,
            k < n ==> tail_bytes(cs@, k as int + 1) < 39,
        decreases k,
    {
        proof {
            lemma_tail_step(cs@, k as int);
        }
        acc = acc + char_width(cs[k - 1]);
        k = k - 1;
    }
    proof {
        let w = choose|j: int| 0 <= j <= cs.len() && tail_bytes(cs@, j) == 39;
        if acc != 39 {
            if acc < 39 {
                assert(k == 0);
                if w > 0 {
                    lemma_tail_decreasing(cs@, 0, w);
                }
            } else {
                if w < k {
                    lemma_tail_decreasing(cs@, w, k as int);
                } else if w > k {
                    assert(k < n);
                    lemma_tail_step(cs@, k as int + 1);
                    if w > k + 1 {
                        lemma_tail_decreasing(cs@, k as int + 1, w);
                    }
                    assert(tail_bytes(cs@, k as int + 1) < 39);
                }
            }
        }
        assert(acc == 39);
        if w < k {
            lemma_tail_decreasing(cs@, w, k as int);
        } else if w > k {
            lemma_tail_decreasing(cs@, k as int, w);
        }
        assert(w == k);
    }
    let mut out: Vec<char> = Vec::new();
    push_str(&mut out, "...");
    let mut j: usize = k;
    let ghost start = out@;
    while j < n
        invariant
            k <= j <= n == cs.len(),
            out@ == start + cs@.subrange(k as int, j as int),
        decreases n - j,
    {
        out.push(cs[j]);
        j = j + 1;
        assert(out@ =~= start + cs@.subrange(k as int, j as int));
    }
    string_of(&out)
}

/// What the delete confirmation names: the one path, or how many items.
#[derive(Debug, Clone)]
pub enum DeleteSubject {
    One(String),
    Many(usize),
}

/// The text of an optional path, empty when there is none.
pub open spec fn path_or_empty(p: Option<String>) -> Seq<char> {
    match p {
        Some(t) => t@,
        None => Seq::empty(),
    }
}

impl AppState {
    /// The open-directory confirmation: the shortened path it asks about, and
    /// whether the new-tab choice is highlighted.
    pub fn open_dialog(&self) -> (r: (String, bool))
        requires
            tail_splits(path_or_empty(self.modal_target_path)),
        ensures
            r.0@ == shortened(path_or_empty(self.modal_target_path)),
            r.1 == self.modal_confirm_new_tab,
    {
        let shown = match &self.modal_target_path {
            Some(p) => shorten_path(p.as_str()),
            None => String::new(),
        };
        (shown, self.modal_confirm_new_tab)
    }

    /// The delete confirmation: the shortened path when one item is to go,
    /// else the number of items.
    pub fn delete_dialog(&self) -> (r: DeleteSubject)
        requires
            self.delete_targets.len() == 1 ==> tail_splits(self.delete_targets@[0]@),
        ensures
            match r {
                DeleteSubject::One(p) => self.delete_targets.len() == 1 && p@ == shortened(self.delete_targets@[0]@),
                DeleteSubject::Many(n) => self.delete_targets.len() != 1 && n == self.delete_targets.len(),
            },
    {
        if self.delete_targets.len() == 1 {
            DeleteSubject::One(shorten_path(self.delete_targets[0].as_str()))
        } else {
            DeleteSubject::Many(self.delete_targets.len())
        }
    }
}

} // verus!
