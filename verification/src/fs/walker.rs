use vstd::prelude::*;
use vstd::relations::*;
use vstd::seq_lib::{commutative_foldl, lemma_fold_left_permutation};
use crate::text::{decimal, digit_char, push_decimal, push_str, string_of};
use crate::paths::{
    is_under, is_under_chars, lemma_between_under, lemma_path_le_antisym, lemma_path_le_total,
    lemma_path_le_trans, lemma_under_after, parent, path_le, relative_to,
};
use crate::sort::{index_seq, is_index_permutation};
use crate::text::{chars_of, same_chars};
use crate::paths::{dir_form, dir_form_string, parent_chars, path_le_chars, relative_to_chars};
use crate::sort::sort_indices;

verus! {

broadcast use vstd::seq_lib::group_to_multiset_ensures;

/// The kind of a directory entry.
#[derive(Debug, Clone, Copy, PartialEq, Eq, Structural)]
pub enum EntryType {
    File,
    Directory,
    Symlink,
}

/// One entry found under a scanned directory.
///
/// `mtime` is the modification time in nanoseconds since the Unix epoch
/// (negative before it). `size` is the byte size of a file, and for a
/// directory the total size of the files below it once a scan has measured it.
#[derive(Debug, Clone, PartialEq, Eq)]
pub struct DirEntry {
    pub path: String,
    pub size: u64,
    pub entry_type: EntryType,
    pub mtime: i128,
    pub display_path: String,
    pub symlink_target: Option<String>,
}

impl DirEntry {
    /// A copy of this entry.
    pub fn duplicate(&self) -> (r: DirEntry)
        ensures
            r == *self,
    {
        let target = match &self.symlink_target {
            Some(t) => Some(t.clone()),
            None => None,
        };
        DirEntry {
            path: self.path.clone(),
            size: self.size,
            entry_type: self.entry_type,
            mtime: self.mtime,
            display_path: self.display_path.clone(),
            symlink_target: target,
        }
    }
}

/// Copies a list of entries.
pub fn copy_entries(v: &Vec<DirEntry>) -> (r: Vec<DirEntry>)
    ensures
        r@ == v@,
{
    let mut r: Vec<DirEntry> = Vec::new();
    let mut i: usize = 0;
    while i < v.len()
        invariant
            i <= v.len(),
            r@ == v@.subrange(0, i as int),
        decreases v.len() - i,
    {
        r.push(v[i].duplicate());
        i = i + 1;
        assert(r@ =~= v@.subrange(0, i as int));
    }
    assert(v@.subrange(0, v.len() as int) =~= v@);
    r
}

/// Aggregated size statistics for a scanned directory tree.
#[derive(Debug, Clone, Default)]
pub struct PathStats {
    /// Total byte size of all files under the root.
    pub total_size: u64,
    /// Total number of regular files found.
    pub file_count: u64,
    /// Byte size attributed to each direct child directory.
    pub subdirs: Vec<(String, u64)>,
    /// All entries scanned recursively under the root path.
    pub all_entries: Vec<DirEntry>,
}

/// Tracks the lifecycle of a background directory scan.
#[derive(Debug, Clone, Copy, PartialEq, Eq, Structural)]
pub enum ScanProgress {
    /// No scan has been started yet.
    Idle,
    /// A scan is in-flight.
    Scanning,
    /// The scan has finished (successfully or with an error).
    Complete,
}

/// `n / d` rounded to the nearest integer, ties to the even neighbour.
pub open spec fn round_half_even(n: nat, d: nat) -> nat
    recommends
        d > 0,
{
    let q = n / d;
    let r = n % d;
    if 2 * r < d {
        q
    } else if 2 * r > d {
        q + 1
    } else if q % 2 == 0 {
        q
    } else {
        q + 1
    }
}

/// `bytes / unit` written with two decimals, rounded as `{:.2}` rounds.
pub open spec fn two_decimals(bytes: nat, unit: nat) -> Seq<char> {
    let q = round_half_even(bytes * 100, unit);
    decimal(q / 100) + seq!['.', digit_char((q % 100) / 10), digit_char(q % 10)]
}

/// Bytes in a kibibyte.
pub open spec fn kib() -> nat {
    1024
}

/// Bytes in a mebibyte.
pub open spec fn mib() -> nat {
    1024 * 1024
}

/// Bytes in a gibibyte.
pub open spec fn gib() -> nat {
    1024 * 1024 * 1024
}

/// Bytes in a tebibyte.
pub open spec fn tib() -> nat {
    1024 * 1024 * 1024 * 1024
}

/// The human-readable form of a byte count.
pub open spec fn size_text(bytes: u64) -> Seq<char> {
    let b = bytes as nat;
    if bytes == u64::MAX {
        "Calculating..."@
    } else if b >= tib() {
        two_decimals(b, tib()) + " TB"@
    } else if b >= gib() {
        two_decimals(b, gib()) + " GB"@
    } else if b >= mib() {
        two_decimals(b, mib()) + " MB"@
    } else if b >= kib() {
        two_decimals(b, kib()) + " KB"@
    } else {
        decimal(b) + " B"@
    }
}

fn push_two_decimals(out: &mut Vec<char>, bytes: u64, unit: u64)
    requires
        unit > 0,
    ensures
        final(out)@ == old(out)@ + two_decimals(bytes as nat, unit as nat),
{
    let n: u128 = (bytes as u128) * 100;
    let d: u128 = unit as u128;
    let q0: u128 = n / d;
    let r: u128 = n % d;
    let q: u128 = if 2 * r < d {
        q0
    } else if 2 * r > d {
        q0 + 1
    } else if q0 % 2 == 0 {
        q0
    } else {
        q0 + 1
    };
    assert(q == round_half_even(bytes as nat * 100, unit as nat));
    assert(q0 <= n);
    assert(q <= (bytes as nat) * 100 + 1);
    push_decimal(out, (q / 100) as u64);
    out.push('.');
    let tens = ((q % 100) / 10) as u64;
    let ones = (q % 10) as u64;
    let t: char = (48u8 + tens as u8) as char;
    let o: char = (48u8 + ones as u8) as char;
    out.push(t);
    out.push(o);
}

/// Formats bytes into a human-readable size string (B, KB, MB, GB, TB).
/// The largest unit not exceeding the count is used, with two decimals;
/// `u64::MAX` stands for a size not measured yet.
pub fn format_size(bytes: u64) -> (s: String)
    ensures
        s@ == size_text(bytes),
{
    proof {
        reveal_strlit("Calculating...");
        reveal_strlit(" TB");
        reveal_strlit(" GB");
        reveal_strlit(" MB");
        reveal_strlit(" KB");
        reveal_strlit(" B");
    }
    if bytes == u64::MAX {
        return String::from_str("Calculating...");
    }
    let kb: u64 = 1024;
    let mb: u64 = 1024 * 1024;
    let gb: u64 = 1024 * 1024 * 1024;
    let tb: u64 = 1024 * 1024 * 1024 * 1024;
    let mut out: Vec<char> = Vec::new();
    if bytes >= tb {
        push_two_decimals(&mut out, bytes, tb);
        push_str(&mut out, " TB");
    } else if bytes >= gb {
        push_two_decimals(&mut out, bytes, gb);
        push_str(&mut out, " GB");
    } else if bytes >= mb {
        push_two_decimals(&mut out, bytes, mb);
        push_str(&mut out, " MB");
    } else if bytes >= kb {
        push_two_decimals(&mut out, bytes, kb);
        push_str(&mut out, " KB");
    } else {
        push_decimal(&mut out, bytes);
        push_str(&mut out, " B");
    }
    string_of(&out)
}

} // verus!
verus! {

/// The bytes a file contributes to totals: its size; other entries add nothing.
pub open spec fn file_bytes(e: DirEntry) -> nat {
    if e.entry_type == EntryType::File {
        e.size as nat
    } else {
        0
    }
}

/// Total size of the files among `w`.
pub open spec fn total_file_bytes(w: Seq<DirEntry>) -> nat
    decreases w.len(),
{
    if w.len() == 0 {
        0
    } else {
        total_file_bytes(w.drop_last()) + file_bytes(w.last())
    }
}

/// Number of files among `w`.
pub open spec fn file_total_count(w: Seq<DirEntry>) -> nat
    decreases w.len(),
{
    if w.len() == 0 {
        0
    } else {
        file_total_count(w.drop_last()) + (if w.last().entry_type == EntryType::File {
            1nat
        } else {
            0nat
        })
    }
}

/// The path of `e` relative to the scanned `root`.
pub open spec fn rel_of(e: DirEntry, root: Seq<char>) -> Seq<char> {
    relative_to(e.path@, root)
}

/// The bytes `e` contributes to the directory `d` (given relative to `root`).
pub open spec fn bytes_under(e: DirEntry, root: Seq<char>, d: Seq<char>) -> nat {
    if is_under(rel_of(e, root), d) {
        file_bytes(e)
    } else {
        0
    }
}

/// Sum of `bytes_under` over the entries of `w` picked by `idx`.
pub open spec fn sum_under(w: Seq<DirEntry>, root: Seq<char>, d: Seq<char>, idx: Seq<usize>) -> nat
    decreases idx.len(),
{
    if idx.len() == 0 {
        0
    } else {
        sum_under(w, root, d, idx.drop_last()) + bytes_under(w[idx.last() as int], root, d)
    }
}

/// Total size of the files of `w` below the directory `d` (relative to `root`).
pub open spec fn subtree_bytes(w: Seq<DirEntry>, root: Seq<char>, d: Seq<char>) -> nat {
    sum_under(w, root, d, index_seq(w.len()))
}

/// What a completed scan reports for the entry `e` found among `w`.
pub open spec fn scanned_entry(w: Seq<DirEntry>, root: Seq<char>, e: DirEntry) -> DirEntry {
    DirEntry {
        path: e.path,
        size: if e.entry_type == EntryType::Directory {
            subtree_bytes(w, root, rel_of(e, root)) as u64
        } else {
            e.size
        },
        entry_type: e.entry_type,
        mtime: e.mtime,
        display_path: e.display_path,
        symlink_target: e.symlink_target,
    }
}

proof fn lemma_sum_under_fold(w: Seq<DirEntry>, root: Seq<char>, d: Seq<char>, idx: Seq<usize>)
    ensures
        sum_under(w, root, d, idx) == idx.fold_left(
            0nat,
            |acc: nat, i: usize| acc + bytes_under(w[i as int], root, d),
        ),
    decreases idx.len(),
{
    if idx.len() > 0 {
        lemma_sum_under_fold(w, root, d, idx.drop_last());
    }
}

proof fn lemma_sum_under_perm(
    w: Seq<DirEntry>,
    root: Seq<char>,
    d: Seq<char>,
    a: Seq<usize>,
    b: Seq<usize>,
)
    requires
        a.to_multiset() == b.to_multiset(),
    ensures
        sum_under(w, root, d, a) == sum_under(w, root, d, b),
{
    let f = |acc: nat, i: usize| acc + bytes_under(w[i as int], root, d);
    assert(commutative_foldl(f)) by {
        assert forall|x: usize, y: usize, v: nat| #[trigger] f(f(v, x), y) == f(f(v, y), x) by {}
    }
    lemma_fold_left_permutation(a, b, f, 0nat);
    lemma_sum_under_fold(w, root, d, a);
    lemma_sum_under_fold(w, root, d, b);
}

proof fn lemma_sum_under_append(
    w: Seq<DirEntry>,
    root: Seq<char>,
    d: Seq<char>,
    a: Seq<usize>,
    b: Seq<usize>,
)
    ensures
        sum_under(w, root, d, a + b) == sum_under(w, root, d, a) + sum_under(w, root, d, b),
    decreases b.len(),
{
    if b.len() == 0 {
        assert(a + b =~= a);
    } else {
        lemma_sum_under_append(w, root, d, a, b.drop_last());
        assert((a + b).drop_last() =~= a + b.drop_last());
    }
}

proof fn lemma_sum_under_zero(w: Seq<DirEntry>, root: Seq<char>, d: Seq<char>, a: Seq<usize>)
    requires
        forall|k: int| 0 <= k < a.len() ==> bytes_under(w[a[k] as int], root, d) == 0,
    ensures
        sum_under(w, root, d, a) == 0,
    decreases a.len(),
{
    if a.len() > 0 {
        lemma_sum_under_zero(w, root, d, a.drop_last());
    }
}

proof fn lemma_sum_under_bound(w: Seq<DirEntry>, root: Seq<char>, d: Seq<char>, n: nat)
    requires
        n <= w.len(),
        w.len() <= usize::MAX,
    ensures
        sum_under(w, root, d, index_seq(n)) <= total_file_bytes(w.subrange(0, n as int)),
    decreases n,
{
    if n > 0 {
        lemma_sum_under_bound(w, root, d, (n - 1) as nat);
        assert(index_seq(n).drop_last() =~= index_seq((n - 1) as nat));
        assert(w.subrange(0, n as int).drop_last() =~= w.subrange(0, n - 1));
        assert(index_seq(n).last() == (n - 1) as usize);
        assert(w.subrange(0, n as int).last() == w[n - 1]);
        assert(bytes_under(w[n - 1], root, d) <= file_bytes(w[n - 1]));
    }
}

/// No directory holds more bytes than the whole scan: the size reported for
/// any directory is at most the total size.
pub proof fn lemma_subtree_within_total(w: Seq<DirEntry>, root: Seq<char>, d: Seq<char>)
    requires
        w.len() <= usize::MAX,
    ensures
        subtree_bytes(w, root, d) <= total_file_bytes(w),
{
    lemma_sum_under_bound(w, root, d, w.len());
    assert(w.subrange(0, w.len() as int) =~= w);
}

proof fn lemma_total_prefix_mono(w: Seq<DirEntry>, i: nat, j: nat)
    requires
        i <= j <= w.len(),
    ensures
        total_file_bytes(w.subrange(0, i as int)) <= total_file_bytes(w.subrange(0, j as int)),
    decreases j - i,
{
    if i < j {
        lemma_total_prefix_mono(w, i, (j - 1) as nat);
        assert(w.subrange(0, j as int).drop_last() =~= w.subrange(0, j - 1));
    }
}

/// The order in which sizes are gathered: by relative path, then by position.
pub open spec fn scan_order(rels: Seq<Seq<char>>) -> spec_fn(usize, usize) -> bool {
    |i: usize, j: usize|
        if rels[i as int] == rels[j as int] {
            i <= j
        } else {
            path_le(rels[i as int], rels[j as int])
        }
}

proof fn lemma_scan_order_total(rels: Seq<Seq<char>>)
    ensures
        total_ordering(scan_order(rels)),
{
    let r = scan_order(rels);
    assert forall|a: usize| #[trigger] r(a, a) by {}
    assert forall|a: usize, b: usize| #[trigger] r(a, b) && #[trigger] r(b, a) implies a == b by {
        if rels[a as int] != rels[b as int] {
            lemma_path_le_antisym(rels[a as int], rels[b as int]);
        }
    }
    assert forall|a: usize, b: usize, c: usize| #[trigger] r(a, b) && #[trigger] r(b, c) implies r(
        a,
        c,
    ) by {
        let (ra, rb, rc) = (rels[a as int], rels[b as int], rels[c as int]);
        if ra == rb && rb == rc {
        } else if ra == rb {
        } else if rb == rc {
        } else {
            lemma_path_le_trans(ra, rb, rc);
            if ra == rc {
                lemma_path_le_antisym(ra, rb);
            }
        }
    }
    assert forall|a: usize, b: usize| #[trigger] r(a, b) || #[trigger] r(b, a) by {
        lemma_path_le_total(rels[a as int], rels[b as int]);
    }
}

} // verus!
verus! {

/// `out` is what a completed scan of `root` reports for the walked entry `e`.
pub open spec fn reports_entry(w: Seq<DirEntry>, root: Seq<char>, e: DirEntry, out: DirEntry) -> bool {
    &&& out.path == e.path
    &&& out.entry_type == e.entry_type
    &&& out.mtime == e.mtime
    &&& out.symlink_target == e.symlink_target
    &&& out.display_path@ == rel_of(e, root)
    &&& out.size == if e.entry_type == EntryType::Directory {
        subtree_bytes(w, root, rel_of(e, root)) as u64
    } else {
        e.size
    }
}

/// The direct child directories of `root` among the first `n` walked entries,
/// with the size of the files below each.
pub open spec fn child_dir_sizes(w: Seq<DirEntry>, root: Seq<char>, n: nat) -> Seq<(Seq<char>, u64)>
    decreases n,
{
    if n == 0 || n > w.len() {
        Seq::empty()
    } else {
        let e = w[n - 1];
        let rest = child_dir_sizes(w, root, (n - 1) as nat);
        if e.entry_type == EntryType::Directory && parent(e.path@) == Some(root) {
            rest.push((e.path@, subtree_bytes(w, root, rel_of(e, root)) as u64))
        } else {
            rest
        }
    }
}

/// The view of a list of (path, size) pairs.
pub open spec fn pairs_view(v: Seq<(String, u64)>) -> Seq<(Seq<char>, u64)> {
    v.map_values(|p: (String, u64)| (p.0@, p.1))
}

fn dir_size_at(
    walked: &Vec<DirEntry>,
    Ghost(root): Ghost<Seq<char>>,
    rels: &Vec<Vec<char>>,
    perm: &Vec<usize>,
    k: usize,
) -> (size: u64)
    requires
        walked.len() == rels.len(),
        perm.len() == walked.len(),
        k < perm.len(),
        forall|x: int| 0 <= x < rels.len() ==> #[trigger] rels[x]@ == rel_of(walked[x], root),
        forall|x: int| 0 <= x < perm.len() ==> perm[x] < walked.len(),
        is_index_permutation(perm@, walked.len() as nat),
        sorted_by(perm@, scan_order(rels@.map_values(|v: Vec<char>| v@))),
        total_file_bytes(walked@) <= u64::MAX,
    ensures
        size == subtree_bytes(walked@, root, rels[perm[k as int] as int]@),
{
    let ghost w = walked@;
    let ghost rs = rels@.map_values(|v: Vec<char>| v@);
    let n = perm.len();
    let i = perm[k];
    let ghost d = rels[i as int]@;
    let ghost full = perm@;
    proof {
        lemma_sum_under_perm(w, root, d, full, index_seq(w.len()));
        lemma_sum_under_bound(w, root, d, w.len());
        assert(w.subrange(0, w.len() as int) =~= w);
    }
    let mut acc: u64 = 0;
    let mut m: usize = k + 1;
    assert(full.subrange(k + 1, k + 1) =~= Seq::<usize>::empty());
    while m < n && (same_chars(&rels[perm[m]], &rels[i]) || is_under_chars(&rels[perm[m]], &rels[i]))
        invariant
            k < m <= n,
            n == perm.len(),
            n == walked.len(),
            n == rels.len(),
            i == perm[k as int],
            i < n,
            w == walked@,
            full == perm@,
            d == rels[i as int]@,
            forall|x: int| 0 <= x < rels.len() ==> #[trigger] rels[x]@ == rel_of(walked[x], root),
            forall|x: int| 0 <= x < perm.len() ==> perm[x] < walked.len(),
            sum_under(w, root, d, full) == subtree_bytes(w, root, d),
            subtree_bytes(w, root, d) <= u64::MAX,
            acc == sum_under(w, root, d, full.subrange(k + 1, m as int)),
        decreases n - m,
    {
        let j = perm[m];
        let ghost before = full.subrange(k + 1, m as int);
        assert(full.subrange(k + 1, m + 1) =~= before.push(j));
        let under = is_under_chars(&rels[j], &rels[i]);
        proof {
            let after = full.subrange(m + 1, n as int);
            let head = full.subrange(0, k + 1);
            assert(full =~= head + before.push(j) + after);
            lemma_sum_under_append(w, root, d, head + before.push(j), after);
            lemma_sum_under_append(w, root, d, head, before.push(j));
            assert(before.push(j).drop_last() =~= before);
            assert(sum_under(w, root, d, before.push(j)) == acc + bytes_under(w[j as int], root, d));
            assert(rels[j as int]@ == rel_of(walked[j as int], root));
            assert(sum_under(w, root, d, before.push(j)) <= u64::MAX);
        }
        if under && walked[j].entry_type == EntryType::File {
            acc = acc + walked[j].size;
        }
        m = m + 1;
    }
    proof {
        let head = full.subrange(0, k + 1);
        let mid = full.subrange(k + 1, m as int);
        let tail = full.subrange(m as int, n as int);
        assert(full =~= head + mid + tail);
        lemma_sum_under_append(w, root, d, head + mid, tail);
        lemma_sum_under_append(w, root, d, head, mid);
        let ord = scan_order(rs);
        assert forall|p: int| 0 <= p < head.len() implies bytes_under(w[head[p] as int], root, d)
            == 0 by {
            let x = head[p];
            assert(x == full[p]);
            if p < k {
                assert(ord(full[p], full[k as int]));
            }
            if rs[x as int] == rs[i as int] {
                assert(rels[x as int]@ == d);
            } else {
                assert(path_le(rels[x as int]@, d));
                if is_under(rels[x as int]@, d) {
                    lemma_under_after(rels[x as int]@, d);
                }
            }
        }
        lemma_sum_under_zero(w, root, d, head);
        assert forall|p: int| 0 <= p < tail.len() implies bytes_under(w[tail[p] as int], root, d)
            == 0 by {
            let x = tail[p];
            let q = full[m as int];
            assert(x == full[m + p]);
            let rq = rels[q as int]@;
            let rx = rels[x as int]@;
            assert(!(rq == d || is_under(rq, d)));
            if is_under(rx, d) {
                assert(ord(full[k as int], q));
                assert(rs[q as int] != rs[i as int]);
                assert(path_le(d, rq));
                if p > 0 {
                    assert(ord(q, x));
                    if rs[q as int] == rs[x as int] {
                        assert(rq == rx);
                    } else {
                        assert(path_le(rq, rx));
                        lemma_between_under(d, rq, rx);
                    }
                }
            }
        }
        lemma_sum_under_zero(w, root, d, tail);
    }
    acc
}

} // verus!
verus! {

proof fn lemma_total_step(w: Seq<DirEntry>, i: int)
    requires
        0 <= i < w.len(),
    ensures
        total_file_bytes(w.subrange(0, i + 1)) == total_file_bytes(w.subrange(0, i)) + file_bytes(
            w[i],
        ),
        file_total_count(w.subrange(0, i + 1)) == file_total_count(w.subrange(0, i)) + (if w[i].entry_type
            == EntryType::File {
            1nat
        } else {
            0nat
        }),
{
    assert(w.subrange(0, i + 1).drop_last() =~= w.subrange(0, i));
}

/// Aggregates the entries found by walking below `root` into size statistics.
///
/// Every directory gets the total size of the files below it, the totals count
/// every file, and `subdirs` lists the direct child directories of `root` in
/// the order they were found. `None` when the file sizes add up to more than a
/// `u64` holds. The root is taken in plain form (see `dir_form`), as `Path`
/// compares paths by their components.
pub fn summarize_scan(root: &str, walked: &Vec<DirEntry>) -> (r: Option<PathStats>)
    ensures
        r is None <==> total_file_bytes(walked@) > u64::MAX,
        r matches Some(st) ==> {
            &&& st.total_size == total_file_bytes(walked@)
            &&& st.file_count == file_total_count(walked@)
            &&& st.all_entries.len() == walked.len()
            &&& forall|i: int|
                0 <= i < walked.len() ==> reports_entry(
                    walked@,
                    dir_form(root@),
                    walked[i],
                    #[trigger] st.all_entries[i],
                )
            &&& pairs_view(st.subdirs@) == child_dir_sizes(walked@, dir_form(root@), walked.len() as nat)
        },
{
    let plain = dir_form_string(root);
    summarize_below(plain.as_str(), walked)
}

/// The statistics of `summarize_scan`, for a root already in plain form.
fn summarize_below(root: &str, walked: &Vec<DirEntry>) -> (r: Option<PathStats>)
    ensures
        r is None <==> total_file_bytes(walked@) > u64::MAX,
        r matches Some(st) ==> {
            &&& st.total_size == total_file_bytes(walked@)
            &&& st.file_count == file_total_count(walked@)
            &&& st.all_entries.len() == walked.len()
            &&& forall|i: int|
                0 <= i < walked.len() ==> reports_entry(
                    walked@,
                    root@,
                    walked[i],
                    #[trigger] st.all_entries[i],
                )
            &&& pairs_view(st.subdirs@) == child_dir_sizes(walked@, root@, walked.len() as nat)
        },
{
    let n = walked.len();
    let ghost w = walked@;
    let root_cs = chars_of(root);
    let mut total: u64 = 0;
    let mut count: u64 = 0;
    let mut i: usize = 0;
    while i < n
        invariant
            i <= n,
            n == walked.len(),
            w == walked@,
            total == total_file_bytes(w.subrange(0, i as int)),
            count == file_total_count(w.subrange(0, i as int)),
            count <= i,
        decreases n - i,
    {
        proof {
            lemma_total_step(w, i as int);
        }
        if walked[i].entry_type == EntryType::File {
            match total.checked_add(walked[i].size) {
                Some(t) => {
                    total = t;
                },
                None => {
                    proof {
                        lemma_total_prefix_mono(w, (i + 1) as nat, n as nat);
                        assert(w.subrange(0, n as int) =~= w);
                    }
                    return None;
                },
            }
            count = count + 1;
        }
        i = i + 1;
    }
    assert(w.subrange(0, n as int) =~= w);
    let mut rels: Vec<Vec<char>> = Vec::new();
    i = 0;
    while i < n
        invariant
            i <= n,
            n == walked.len(),
            root_cs@ == root@,
            rels.len() == i,
            forall|x: int| 0 <= x < i ==> #[trigger] rels[x]@ == rel_of(walked[x], root@),
        decreases n - i,
    {
        let pc = chars_of(walked[i].path.as_str());
        rels.push(relative_to_chars(&pc, &root_cs));
        i = i + 1;
    }
    let ghost rs = rels@.map_values(|v: Vec<char>| v@);
    let le = |a: usize, b: usize| -> (res: bool)
        requires
            a < rels.len(),
            b < rels.len(),
        ensures
            res == scan_order(rels@.map_values(|v: Vec<char>| v@))(a, b),
        {
            if same_chars(&rels[a], &rels[b]) {
                a <= b
            } else {
                path_le_chars(&rels[a], &rels[b])
            }
        };
    proof {
        lemma_scan_order_total(rs);
    }
    let perm = sort_indices(n, &le, Ghost(scan_order(rs)));
    let mut sizes: Vec<u64> = Vec::new();
    i = 0;
    while i < n
        invariant
            i <= n,
            n == walked.len(),
            sizes.len() == i,
            forall|x: int| 0 <= x < i ==> sizes[x] == walked[x].size,
        decreases n - i,
    {
        sizes.push(walked[i].size);
        i = i + 1;
    }
    let mut k: usize = 0;
    while k < n
        invariant
            k <= n,
            n == walked.len(),
            n == perm.len(),
            n == rels.len(),
            n == sizes.len(),
            w == walked@,
            rs == rels@.map_values(|v: Vec<char>| v@),
            forall|x: int| 0 <= x < rels.len() ==> #[trigger] rels[x]@ == rel_of(walked[x], root@),
            forall|x: int| 0 <= x < perm.len() ==> perm[x] < walked.len(),
            is_index_permutation(perm@, n as nat),
            sorted_by(perm@, scan_order(rs)),
            total_file_bytes(w) <= u64::MAX,
            forall|x: int|
                0 <= x < n ==> #[trigger] sizes[x] == if walked[x].entry_type
                    == EntryType::Directory && perm@.subrange(0, k as int).contains(x as usize) {
                    subtree_bytes(w, root@, rel_of(walked[x], root@)) as u64
                } else {
                    walked[x].size
                },
        decreases n - k,
    {
        let x = perm[k];
        assert(perm@.subrange(0, k + 1) =~= perm@.subrange(0, k as int).push(x));
        let ghost old_sizes = sizes@;
        if walked[x].entry_type == EntryType::Directory {
            let s = dir_size_at(walked, Ghost(root@), &rels, &perm, k);
            assert(rels[x as int]@ == rel_of(walked[x as int], root@));
            sizes.set(x, s);
        }
        assert forall|y: int| 0 <= y < n implies #[trigger] sizes[y] == if walked[y].entry_type
            == EntryType::Directory && perm@.subrange(0, k + 1).contains(y as usize) {
            subtree_bytes(w, root@, rel_of(walked[y], root@)) as u64
        } else {
            walked[y].size
        } by {
            if y != x {
                assert(old_sizes[y] == sizes[y]);
                if perm@.subrange(0, k + 1).contains(y as usize) {
                    let q = choose|q: int| 0 <= q < k + 1 && #[trigger] perm@.subrange(0, k + 1)[q] == y as usize;
                    assert(q < k);
                    assert(perm@.subrange(0, k as int)[q] == y as usize);
                }
                if perm@.subrange(0, k as int).contains(y as usize) {
                    let q = choose|q: int| 0 <= q < k && #[trigger] perm@.subrange(0, k as int)[q] == y as usize;
                    assert(perm@.subrange(0, k + 1)[q] == y as usize);
                }
            } else {
                assert(perm@.subrange(0, k + 1)[k as int] == x);
            }
        }
        k = k + 1;
    }
    assert(perm@.subrange(0, n as int) =~= perm@);
    assert forall|x: int| 0 <= x < n implies #[trigger] perm@.contains(x as usize) by {
        assert(index_seq(n as nat)[x] == x as usize);
        assert(index_seq(n as nat).contains(x as usize));
        assert(index_seq(n as nat).to_multiset().count(x as usize) > 0);
        assert(perm@.to_multiset().count(x as usize) > 0);
    }
    let mut all: Vec<DirEntry> = Vec::new();
    let mut subdirs: Vec<(String, u64)> = Vec::new();
    i = 0;
    while i < n
        invariant
            i <= n,
            n == walked.len(),
            n == rels.len(),
            n == sizes.len(),
            w == walked@,
            root_cs@ == root@,
            forall|x: int| 0 <= x < rels.len() ==> #[trigger] rels[x]@ == rel_of(walked[x], root@),
            forall|x: int|
                0 <= x < n ==> #[trigger] sizes[x] == if walked[x].entry_type
                    == EntryType::Directory {
                    subtree_bytes(w, root@, rel_of(walked[x], root@)) as u64
                } else {
                    walked[x].size
                },
            all.len() == i,
            forall|x: int| 0 <= x < i ==> reports_entry(w, root@, walked[x], #[trigger] all[x]),
            pairs_view(subdirs@) == child_dir_sizes(w, root@, i as nat),
        decreases n - i,
    {
        let e = &walked[i];
        let target = match &e.symlink_target {
            Some(t) => Some(t.clone()),
            None => None,
        };
        all.push(
            DirEntry {
                path: e.path.clone(),
                size: sizes[i],
                entry_type: e.entry_type,
                mtime: e.mtime,
                display_path: string_of(&rels[i]),
                symlink_target: target,
            },
        );
        let ghost old_sub = subdirs@;
        if e.entry_type == EntryType::Directory {
            let pc = chars_of(e.path.as_str());
            match parent_chars(&pc) {
                Some(par) => {
                    if same_chars(&par, &root_cs) {
                        subdirs.push((e.path.clone(), sizes[i]));
                        assert(pairs_view(subdirs@) =~= pairs_view(old_sub).push(
                            (e.path@, sizes[i as int]),
                        ));
                    }
                },
                None => {},
            }
        }
        i = i + 1;
    }
    Some(PathStats { total_size: total, file_count: count, subdirs, all_entries: all })
}

} // verus!
