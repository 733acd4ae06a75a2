use vstd::prelude::*;
use crate::app::tree::{reselected, row_entries};
use crate::app::{AppState, ModalMode, PreviewType, SortMode};
use crate::config::{lists_path, path_keys, strs};
use crate::fs::walker::{DirEntry, EntryType};
use crate::navigation::opt_view;
use crate::paths::{canonical, canonical_chars, extension, extension_chars, file_name, file_name_chars};
use crate::text::{chars_of, lowercase, same_chars, string_of, to_lowercase};

verus! {

/// How long a notification stays on screen, in milliseconds.
pub const NOTIFICATION_MILLIS: u64 = 3000;

impl AppState {
    /// On a clock tick, with the notification shown for `shown_millis`
    /// milliseconds: it goes once it has been shown for three seconds.
    /// Returns whether it went.
    pub fn expire_notification(&mut self, shown_millis: u64) -> (gone: bool)
        ensures
            gone == (old(self).notification is Some && shown_millis >= NOTIFICATION_MILLIS),
            gone ==> *final(self) == (AppState { notification: None, ..*old(self) }),
            !gone ==> *final(self) == *old(self),
    {
        if self.notification.is_some() && shown_millis >= NOTIFICATION_MILLIS {
            self.notification = None;
            true
        } else {
            false
        }
    }
}

/// Where a cursor at `c` lands after moving `delta` rows over `len` rows,
/// wrapping at both ends.
pub open spec fn wrapped_cursor(c: int, delta: int, len: int) -> int {
    (c + delta) % len
}

/// Moving by `delta` and back by `-delta` returns to the row one started on.
pub proof fn lemma_move_back(c: int, delta: int, len: int)
    requires
        0 <= c < len,
    ensures
        0 <= wrapped_cursor(c, delta, len) < len,
        wrapped_cursor(wrapped_cursor(c, delta, len), -delta, len) == c,
{
    let m = wrapped_cursor(c, delta, len);
    vstd::arithmetic::div_mod::lemma_mod_bound(c + delta, len);
    vstd::arithmetic::div_mod::lemma_fundamental_div_mod(c + delta, len);
    let q = (c + delta) / len;
    assert(m - delta == len * (-q) + c) by (nonlinear_arith)
        requires
            c + delta == len * q + m,
    ;
    vstd::arithmetic::div_mod::lemma_mod_multiples_vanish(-q, c, len);
    vstd::arithmetic::div_mod::lemma_small_mod(c as nat, len as nat);
}

/// The listing order that follows `m` in the size, name, time cycle.
pub open spec fn next_sort_mode(m: SortMode) -> SortMode {
    match m {
        SortMode::SizeDesc => SortMode::NameAsc,
        SortMode::NameAsc => SortMode::MtimeDesc,
        SortMode::MtimeDesc => SortMode::SizeDesc,
    }
}

/// Cycling the listing order three times comes back to where it started.
pub proof fn lemma_sort_cycle(m: SortMode)
    ensures
        next_sort_mode(next_sort_mode(next_sort_mode(m))) == m,
        next_sort_mode(m) != m,
{
}

/// The (lower-cased) extensions previewed as images.
pub open spec fn image_extension(e: Seq<char>) -> bool {
    e == "png"@ || e == "jpg"@ || e == "jpeg"@ || e == "gif"@ || e == "bmp"@ || e == "webp"@ || e
        == "ico"@ || e == "pdf"@
}

/// The (lower-cased) extensions that are not previewed.
pub open spec fn unsupported_extension(e: Seq<char>) -> bool {
    e == "zip"@ || e == "tar"@ || e == "gz"@ || e == "7z"@ || e == "rar"@ || e == "bin"@ || e
        == "exe"@ || e == "dll"@ || e == "so"@ || e == "dylib"@ || e == "dmg"@ || e == "iso"@ || e
        == "docx"@ || e == "xlsx"@ || e == "pptx"@
}

/// How the file at `path` is previewed, by its lower-cased extension.
pub open spec fn preview_type_of(path: Seq<char>) -> PreviewType {
    match extension(path) {
        None => PreviewType::Text,
        Some(e) => if image_extension(lowercase(e)) {
            PreviewType::Image
        } else if unsupported_extension(lowercase(e)) {
            PreviewType::Unsupported
        } else {
            PreviewType::Text
        },
    }
}

/// A file whose extension is, in any case, one of png, jpg, jpeg, gif, bmp,
/// webp, ico or pdf is previewed as an image; one of the archive, binary and
/// office extensions is not previewed; a file without an extension, or with
/// any other, is previewed as text.
pub proof fn lemma_preview_by_extension(path: Seq<char>)
    ensures
        extension(path) is None ==> preview_type_of(path) == PreviewType::Text,
        extension(path) matches Some(x) && ({
            let e = lowercase(x);
            ||| e == "png"@
            ||| e == "jpg"@
            ||| e == "jpeg"@
            ||| e == "gif"@
            ||| e == "bmp"@
            ||| e == "webp"@
            ||| e == "ico"@
            ||| e == "pdf"@
        }) ==> preview_type_of(path) == PreviewType::Image,
        extension(path) matches Some(x) && ({
            let e = lowercase(x);
            ||| e == "zip"@
            ||| e == "tar"@
            ||| e == "gz"@
            ||| e == "7z"@
            ||| e == "rar"@
            ||| e == "bin"@
            ||| e == "exe"@
            ||| e == "dll"@
            ||| e == "so"@
            ||| e == "dylib"@
            ||| e == "dmg"@
            ||| e == "iso"@
            ||| e == "docx"@
            ||| e == "xlsx"@
            ||| e == "pptx"@
        }) ==> preview_type_of(path) == PreviewType::Unsupported,
{
    reveal_strlit("png");
    reveal_strlit("jpg");
    reveal_strlit("jpeg");
    reveal_strlit("gif");
    reveal_strlit("bmp");
    reveal_strlit("webp");
    reveal_strlit("ico");
    reveal_strlit("pdf");
    reveal_strlit("zip");
    reveal_strlit("tar");
    reveal_strlit("gz");
    reveal_strlit("7z");
    reveal_strlit("rar");
    reveal_strlit("bin");
    reveal_strlit("exe");
    reveal_strlit("dll");
    reveal_strlit("so");
    reveal_strlit("dylib");
    reveal_strlit("dmg");
    reveal_strlit("iso");
    reveal_strlit("docx");
    reveal_strlit("xlsx");
    reveal_strlit("pptx");
    if let Some(x) = extension(path) {
        let e = lowercase(x);
        if unsupported_extension(e) {
            assert(e.len() >= 2);
            assert(image_extension(e) ==> (e.len() == 3 && e[0] == 'p' && e[1] == 'n')
                || (e.len() == 3 && e[0] == 'j' && e[1] == 'p')
                || (e.len() == 4 && e[0] == 'j' && e[1] == 'p')
                || (e.len() == 3 && e[0] == 'g' && e[1] == 'i')
                || (e.len() == 3 && e[0] == 'b' && e[1] == 'm')
                || (e.len() == 4 && e[0] == 'w' && e[1] == 'e')
                || (e.len() == 3 && e[0] == 'i' && e[1] == 'c')
                || (e.len() == 3 && e[0] == 'p' && e[1] == 'd'));
            assert(!image_extension(e));
        }
    }
}

fn text_eq(e: &Vec<char>, lit: &str) -> (r: bool)
    ensures
        r == (e@ == lit@),
{
    same_chars(e, &chars_of(lit))
}

fn is_image_extension(e: &Vec<char>) -> (r: bool)
    ensures
        r == image_extension(e@),
{
    text_eq(e, "png") || text_eq(e, "jpg") || text_eq(e, "jpeg") || text_eq(e, "gif") || text_eq(
        e,
        "bmp",
    ) || text_eq(e, "webp") || text_eq(e, "ico") || text_eq(e, "pdf")
}

fn is_unsupported_extension(e: &Vec<char>) -> (r: bool)
    ensures
        r == unsupported_extension(e@),
{
    text_eq(e, "zip") || text_eq(e, "tar") || text_eq(e, "gz") || text_eq(e, "7z") || text_eq(
        e,
        "rar",
    ) || text_eq(e, "bin") || text_eq(e, "exe") || text_eq(e, "dll") || text_eq(e, "so")
        || text_eq(e, "dylib") || text_eq(e, "dmg") || text_eq(e, "iso") || text_eq(e, "docx")
        || text_eq(e, "xlsx") || text_eq(e, "pptx")
}

/// The position of the first path of `v` equal to `p`, as `Path` compares
/// paths.
pub fn position_of(v: &Vec<String>, p: &Vec<char>) -> (r: Option<usize>)
    ensures
        match r {
            Some(k) => k < v.len() && canonical(v@[k as int]@) == canonical(p@) && forall|j: int|
                0 <= j < k ==> canonical(v@[j]@) != canonical(p@),
            None => forall|j: int| 0 <= j < v.len() ==> canonical(v@[j]@) != canonical(p@),
        },
{
    let pc = canonical_chars(p);
    let mut k: usize = 0;
    while k < v.len()
        invariant
            k <= v.len(),
            pc@ == canonical(p@),
            forall|j: int| 0 <= j < k ==> canonical(v@[j]@) != canonical(p@),
        decreases v.len() - k,
    {
        let c = canonical_chars(&chars_of(v[k].as_str()));
        if same_chars(&c, &pc) {
            return Some(k);
        }
        k = k + 1;
    }
    None
}

/// `s` with `x` removed when it is there, else added last.
pub open spec fn flip_member(s: Seq<Seq<char>>, x: Seq<char>) -> Seq<Seq<char>> {
    if s.contains(x) {
        s.remove(s.index_of(x))
    } else {
        s.push(x)
    }
}

/// The selection list after toggling `p`: removed when marked (as `Path`
/// compares paths), else added last.
pub open spec fn toggled(marked: Seq<Seq<char>>, p: Seq<char>) -> Seq<Seq<char>> {
    if lists_path(marked, p) {
        marked.remove(path_keys(marked).index_of(canonical(p)))
    } else {
        marked.push(p)
    }
}

/// Toggling a path toggles its key among the keys of the marked paths.
proof fn lemma_toggled_keys(marked: Seq<Seq<char>>, p: Seq<char>)
    ensures
        path_keys(toggled(marked, p)) == flip_member(path_keys(marked), canonical(p)),
{
    let k = path_keys(marked);
    if lists_path(marked, p) {
        let i = k.index_of(canonical(p));
        assert(path_keys(marked.remove(i)) =~= k.remove(i));
    } else {
        assert(path_keys(marked.push(p)) =~= k.push(canonical(p)));
    }
}

/// Toggling a path keeps every path marked at most once (as `Path` compares
/// paths), and toggling it twice marks the same paths as before.
pub proof fn lemma_toggle_twice(marked: Seq<Seq<char>>, p: Seq<char>)
    requires
        path_keys(marked).no_duplicates(),
    ensures
        path_keys(toggled(marked, p)).no_duplicates(),
        path_keys(toggled(toggled(marked, p), p)).no_duplicates(),
        path_keys(toggled(toggled(marked, p), p)).to_set() == path_keys(marked).to_set(),
        lists_path(toggled(marked, p), p) != lists_path(marked, p),
{
    let k = path_keys(marked);
    let c = canonical(p);
    lemma_toggled_keys(marked, p);
    lemma_toggled_keys(toggled(marked, p), p);
    lemma_toggle_keeps(k, c);
    lemma_toggle_keeps(flip_member(k, c), c);
    assert(flip_member(flip_member(k, c), c).to_set() =~= k.to_set());
}

proof fn lemma_toggle_keeps(marked: Seq<Seq<char>>, p: Seq<char>)
    requires
        marked.no_duplicates(),
    ensures
        flip_member(marked, p).no_duplicates(),
        flip_member(marked, p).to_set() == if marked.contains(p) {
            marked.to_set().remove(p)
        } else {
            marked.to_set().insert(p)
        },
        flip_member(marked, p).contains(p) != marked.contains(p),
{
    if marked.contains(p) {
        let i = marked.index_of(p);
        let r = marked.remove(i);
        assert forall|a: int, b: int| 0 <= a < b < r.len() implies r[a] != r[b] by {
            let a2 = if a < i { a } else { a + 1 };
            let b2 = if b < i { b } else { b + 1 };
            assert(r[a] == marked[a2] && r[b] == marked[b2]);
        }
        assert forall|x: Seq<char>| r.to_set().contains(x) == marked.to_set().remove(p).contains(x) by {
            if r.contains(x) {
                let k = choose|k: int| 0 <= k < r.len() && r[k] == x;
                let k2 = if k < i { k } else { k + 1 };
                assert(marked[k2] == x);
                assert(k2 != i);
            }
            if marked.contains(x) && x != p {
                let k = choose|k: int| 0 <= k < marked.len() && marked[k] == x;
                assert(k != i);
                let k2 = if k < i { k } else { k - 1 };
                assert(r[k2] == x);
            }
        }
        assert(r.to_set() =~= marked.to_set().remove(p));
        if r.contains(p) {
            let k = choose|k: int| 0 <= k < r.len() && r[k] == p;
            let k2 = if k < i { k } else { k + 1 };
            assert(marked[k2] == p && k2 != i);
        }
    } else {
        let r = marked.push(p);
        assert(r[r.len() - 1] == p);
        assert forall|x: Seq<char>| r.to_set().contains(x) == marked.to_set().insert(p).contains(x) by {
            if r.contains(x) {
                let k = choose|k: int| 0 <= k < r.len() && r[k] == x;
                if k < marked.len() {
                    assert(marked[k] == x);
                }
            }
            if marked.contains(x) {
                let k = choose|k: int| 0 <= k < marked.len() && marked[k] == x;
                assert(r[k] == x);
            }
        }
        assert(r.to_set() =~= marked.to_set().insert(p));
    }
}

/// The first of `v`, if any.
pub open spec fn first_of(v: Seq<DirEntry>) -> Option<DirEntry> {
    if v.len() > 0 {
        Some(v[0])
    } else {
        None
    }
}

/// `"Added to Bookmarks: "` followed by the directory's name, or by the whole
/// path when it has no name.
pub open spec fn bookmark_message(path: Seq<char>) -> Seq<char> {
    "Added to Bookmarks: "@ + match file_name(path) {
        Some(n) => n,
        None => path,
    }
}

/// The modal row after a list shrank to `len` rows: kept when still there,
/// else on the last row (or the top of an empty list).
pub open spec fn clamped_row(row: usize, len: nat) -> usize {
    if len == 0 {
        0
    } else if row >= len {
        (len - 1) as usize
    } else {
        row
    }
}

/// The query typed so far, empty when there is none.
pub open spec fn typed_query(q: Option<Seq<char>>) -> Seq<char> {
    match q {
        Some(t) => t,
        None => Seq::empty(),
    }
}

/// The query after typing `c`.
pub open spec fn pushed_query(q: Option<Seq<char>>, c: char) -> Option<Seq<char>> {
    Some(typed_query(q).push(c))
}

/// The query after deleting its last character: none once it is empty.
pub open spec fn popped_query(q: Option<Seq<char>>) -> Option<Seq<char>> {
    let t = typed_query(q);
    if t.len() <= 1 {
        None
    } else {
        Some(t.drop_last())
    }
}

/// Deleting a character just typed gives the query back (an empty query
/// comes back as none).
pub proof fn lemma_pop_undoes_push(q: Option<Seq<char>>, c: char)
    ensures
        popped_query(pushed_query(q, c)) == if typed_query(q).len() == 0 {
            None
        } else {
            Some(typed_query(q))
        },
{
    assert(typed_query(q).push(c).drop_last() =~= typed_query(q));
}

impl AppState {
    /// Moves the cursor by `delta` rows over the visible rows, wrapping at
    /// both ends; nothing moves when no row is shown.
    pub fn move_selection(&mut self, delta: isize)
        ensures
            old(self).visible_rows().len() == 0 ==> *final(self) == *old(self),
            old(self).visible_rows().len() > 0 ==> final(self).navigation.cursor_view()
                == wrapped_cursor(
                old(self).navigation.cursor_view() as int,
                delta as int,
                old(self).visible_rows().len() as int,
            ),
            final(self).navigation.items_view() == old(self).navigation.items_view(),
            final(self).navigation.expanded_set() == old(self).navigation.expanded_set(),
            final(self).navigation.query_view() == old(self).navigation.query_view(),
            final(self).navigation.mode_view() == old(self).navigation.mode_view(),
            final(self).navigation.results_view() == old(self).navigation.results_view(),
            final(self).current_path == old(self).current_path,
            final(self).all_entries == old(self).all_entries,
            final(self).tabs == old(self).tabs,
            final(self).active_tab == old(self).active_tab,
            final(self).config == old(self).config,
            final(self).selected_paths == old(self).selected_paths,
            *final(self) == (AppState {
                navigation: final(self).navigation,
                ..*old(self)
            }),
    {
        let len = self.visible_items().len();
        if len == 0 {
            return;
        }
        let current = self.navigation.cursor();
        let sum: i128 = current as i128 + delta as i128;
        let n: u128 = len as u128;
        let idx: u128 = if sum >= 0 {
            let r = (sum as u128) % n;
            proof {
                vstd::arithmetic::div_mod::lemma_mod_bound(sum as int, len as int);
            }
            r
        } else {
            let a: u128 = (-sum) as u128;
            let r = a % n;
            proof {
                vstd::arithmetic::div_mod::lemma_fundamental_div_mod(a as int, n as int);
                vstd::arithmetic::div_mod::lemma_mod_bound(a as int, n as int);
                let k = (a as int) / (n as int);
                if r == 0 {
                    assert(sum as int == (-k) * (n as int) + 0) by (nonlinear_arith)
                        requires
                            a as int == (n as int) * k + 0,
                            sum as int == -(a as int),
                    ;
                    vstd::arithmetic::div_mod::lemma_fundamental_div_mod_converse_mod(
                        sum as int,
                        n as int,
                        -k,
                        0,
                    );
                } else {
                    assert(sum as int == (-k - 1) * (n as int) + (n - r)) by (nonlinear_arith)
                        requires
                            a as int == (n as int) * k + r,
                            sum as int == -(a as int),
                    ;
                    vstd::arithmetic::div_mod::lemma_fundamental_div_mod_converse_mod(
                        sum as int,
                        n as int,
                        -k - 1,
                        (n - r) as int,
                    );
                }
            }
            if r == 0 {
                0
            } else {
                n - r
            }
        };
        assert(idx as int == wrapped_cursor(current as int, delta as int, len as int));
        self.navigation.set_cursor(idx as usize);
    }

    /// Marks the selected entry for a batch operation, or unmarks it.
    pub fn toggle_select(&mut self)
        requires
            old(self).wf(),
        ensures
            final(self).wf(),
            match old(self).navigation.selection_view() {
                Some(e) => strs(final(self).selected_paths@) == toggled(
                    strs(old(self).selected_paths@),
                    e.path@,
                ),
                None => final(self).selected_paths == old(self).selected_paths,
            },
            final(self).navigation == old(self).navigation,
            final(self).current_path == old(self).current_path,
            final(self).all_entries == old(self).all_entries,
            final(self).tabs == old(self).tabs,
            final(self).active_tab == old(self).active_tab,
            final(self).config == old(self).config,
            *final(self) == (AppState {
                selected_paths: final(self).selected_paths,
                ..*old(self)
            }),
    {
        match self.navigation.current_selection() {
            Some(item) => {
                let ghost before = strs(self.selected_paths@);
                let ghost keys = path_keys(before);
                let ghost c = canonical(item.path@);
                let p = chars_of(item.path.as_str());
                let found = position_of(&self.selected_paths, &p);
                proof {
                    lemma_toggled_keys(before, item.path@);
                    lemma_toggle_keeps(keys, c);
                }
                match found {
                    Some(i) => {
                        proof {
                            assert(keys[i as int] == c);
                            assert(keys.contains(c));
                            assert(keys.index_of(c) == i) by {
                                let j = keys.index_of(c);
                                assert(keys[j] == c);
                                if j != i {
                                    assert(keys.no_duplicates());
                                }
                            }
                        }
                        let _ = self.selected_paths.remove(i);
                        assert(strs(self.selected_paths@) =~= before.remove(i as int));
                    },
                    None => {
                        proof {
                            if keys.contains(c) {
                                let j = choose|j: int| 0 <= j < keys.len() && keys[j] == c;
                                assert(canonical(self.selected_paths@[j]@) != canonical(p@));
                            }
                        }
                        self.selected_paths.push(item.path);
                        assert(strs(self.selected_paths@) =~= before.push(p@));
                    },
                }
            },
            None => {},
        }
    }

    /// Opens or closes the search line; the query is kept either way.
    pub fn toggle_search_mode(&mut self)
        ensures
            *final(self) == (AppState { search_mode: !old(self).search_mode, ..*old(self) }),
    {
        self.search_mode = !self.search_mode;
    }

    /// Clears the query and relists the tree.
    pub fn clear_search(&mut self)
        ensures
            final(self).navigation.query_view() is None,
            final(self).navigation.items_view() == row_entries(old(self).tree_view()),
            reselected(
                first_of(old(self).navigation.items_view()),
                row_entries(old(self).tree_view()),
                0,
                final(self).navigation.cursor_view(),
            ),
            final(self).navigation.expanded_set() == old(self).navigation.expanded_set(),
            final(self).navigation.mode_view() == old(self).navigation.mode_view(),
            final(self).all_entries == old(self).all_entries,
            final(self).current_path == old(self).current_path,
            final(self).tabs == old(self).tabs,
            final(self).active_tab == old(self).active_tab,
            final(self).selected_paths == old(self).selected_paths,
            final(self).config == old(self).config,
            *final(self) == (AppState {
                navigation: final(self).navigation,
                ..*old(self)
            }),
    {
        let ghost tree = self.tree_view();
        self.navigation.set_filter(None, &self.all_entries);
        assert(self.tree_view() == tree);
        self.sync_navigation_items();
    }

    fn query_chars(&self) -> (q: Vec<char>)
        ensures
            q@ == match self.navigation.query_view() {
                Some(t) => t,
                None => Seq::empty(),
            },
    {
        match self.navigation.filter_query() {
            Some(t) => chars_of(t.as_str()),
            None => Vec::new(),
        }
    }

    /// Appends `ch` to the query and filters every scanned entry with it; the
    /// cursor returns to the top.
    pub fn push_search_char(&mut self, ch: char)
        ensures
            final(self).navigation.query_view() == pushed_query(old(self).navigation.query_view(), ch),
            crate::sort::arranged(
                crate::navigation::fuzzy_hits(
                    old(self).all_entries@,
                    final(self).navigation.query_view().unwrap(),
                ),
                crate::navigation::score_order(
                    crate::navigation::fuzzy_hits(
                        old(self).all_entries@,
                        final(self).navigation.query_view().unwrap(),
                    ),
                ),
                final(self).navigation.results_view(),
            ),
            final(self).navigation.cursor_view() == 0,
            final(self).navigation.items_view() == old(self).navigation.items_view(),
            final(self).navigation.expanded_set() == old(self).navigation.expanded_set(),
            final(self).navigation.mode_view() == old(self).navigation.mode_view(),
            final(self).all_entries == old(self).all_entries,
            final(self).current_path == old(self).current_path,
            final(self).tabs == old(self).tabs,
            final(self).active_tab == old(self).active_tab,
            final(self).selected_paths == old(self).selected_paths,
            *final(self) == (AppState {
                navigation: final(self).navigation,
                ..*old(self)
            }),
    {
        let mut q = self.query_chars();
        q.push(ch);
        let s = string_of(&q);
        self.navigation.set_filter(Some(s), &self.all_entries);
    }

    /// Deletes the last query character; an emptied query is cleared and the
    /// tree relisted. The cursor returns to the top.
    pub fn pop_search_char(&mut self)
        ensures
            ({
                let q = match old(self).navigation.query_view() {
                    Some(t) => t,
                    None => Seq::<char>::empty(),
                };
                let shorter = if q.len() == 0 {
                    q
                } else {
                    q.drop_last()
                };
                &&& shorter.len() == 0 ==> final(self).navigation.query_view() is None
                    && final(self).navigation.items_view() == row_entries(old(self).tree_view())
                    && reselected(
                    first_of(old(self).navigation.items_view()),
                    row_entries(old(self).tree_view()),
                    0,
                    final(self).navigation.cursor_view(),
                )
                &&& final(self).navigation.query_view() == popped_query(old(self).navigation.query_view())
                &&& shorter.len() > 0 ==> crate::sort::arranged(
                    crate::navigation::fuzzy_hits(old(self).all_entries@, shorter),
                    crate::navigation::score_order(
                        crate::navigation::fuzzy_hits(old(self).all_entries@, shorter),
                    ),
                    final(self).navigation.results_view(),
                ) && final(self).navigation.items_view() == old(self).navigation.items_view()
                    && final(self).navigation.cursor_view() == 0
            }),
            final(self).navigation.expanded_set() == old(self).navigation.expanded_set(),
            final(self).navigation.mode_view() == old(self).navigation.mode_view(),
            final(self).all_entries == old(self).all_entries,
            final(self).current_path == old(self).current_path,
            final(self).tabs == old(self).tabs,
            final(self).active_tab == old(self).active_tab,
            final(self).selected_paths == old(self).selected_paths,
            *final(self) == (AppState {
                navigation: final(self).navigation,
                ..*old(self)
            }),
    {
        let mut q = self.query_chars();
        if q.len() > 0 {
            let _ = q.pop();
        }
        if q.len() == 0 {
            self.clear_search();
        } else {
            let s = string_of(&q);
            self.navigation.set_filter(Some(s), &self.all_entries);
        }
    }

    /// Moves to the next listing order (size, name, time) and relists.
    pub fn cycle_sort_mode(&mut self)
        ensures
            final(self).navigation.mode_view() == next_sort_mode(old(self).navigation.mode_view()),
            final(self).navigation.query_view() == old(self).navigation.query_view(),
            final(self).navigation.expanded_set() == old(self).navigation.expanded_set(),
            final(self).all_entries == old(self).all_entries,
            final(self).current_path == old(self).current_path,
            final(self).tabs == old(self).tabs,
            final(self).active_tab == old(self).active_tab,
            final(self).selected_paths == old(self).selected_paths,
            final(self).config == old(self).config,
            old(self).navigation.query_view() is None ==> final(self).navigation.items_view()
                == row_entries(
                crate::app::tree::expanded_tree(
                    old(self).all_entries@,
                    old(self).current_path@,
                    old(self).navigation.expanded_set(),
                    next_sort_mode(old(self).navigation.mode_view()),
                ),
            ),
            *final(self) == (AppState {
                navigation: final(self).navigation,
                ..*old(self)
            }),
    {
        let next = match self.navigation.sort_mode() {
            SortMode::SizeDesc => SortMode::NameAsc,
            SortMode::NameAsc => SortMode::MtimeDesc,
            SortMode::MtimeDesc => SortMode::SizeDesc,
        };
        self.navigation.set_sort_mode(next);
        self.sync_navigation_items();
    }

    /// How the file at `path` is previewed: images (and PDFs) as pictures,
    /// archives and binaries not at all, everything else as text.
    pub fn detect_preview_type(&self, path: &str) -> (r: PreviewType)
        ensures
            r == preview_type_of(path@),
    {
        match extension_chars(&chars_of(path)) {
            None => PreviewType::Text,
            Some(e) => {
                let low = chars_of(to_lowercase(string_of(&e).as_str()).as_str());
                if is_image_extension(&low) {
                    PreviewType::Image
                } else if is_unsupported_extension(&low) {
                    PreviewType::Unsupported
                } else {
                    PreviewType::Text
                }
            },
        }
    }
}

} // verus!
