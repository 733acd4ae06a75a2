use vstd::prelude::*;
use crate::paths::{canonical, canonical_chars, same_path};
use crate::text::{chars_of, same_chars};

pub mod session;

verus! {

/// The texts of a list of strings.
pub open spec fn strs(v: Seq<String>) -> Seq<Seq<char>> {
    v.map_values(|s: String| s@)
}

/// The paths `v` as `Path` compares them (see `canonical`).
pub open spec fn path_keys(v: Seq<Seq<char>>) -> Seq<Seq<char>> {
    v.map_values(|p: Seq<char>| canonical(p))
}

/// Whether a path equal to `p`, as `Path` compares paths, is among `v`.
pub open spec fn lists_path(v: Seq<Seq<char>>, p: Seq<char>) -> bool {
    path_keys(v).contains(canonical(p))
}

/// `s` without runs of equal neighbours (the first of each run stays), as
/// `Vec::dedup` leaves it; paths are compared as `Path` compares them.
pub open spec fn dedup_spec(s: Seq<Seq<char>>) -> Seq<Seq<char>>
    decreases s.len(),
{
    if s.len() <= 1 {
        s
    } else if same_path(s.last(), s[s.len() - 2]) {
        dedup_spec(s.drop_last())
    } else {
        dedup_spec(s.drop_last()).push(s.last())
    }
}

/// The most recently visited directories kept.
pub open spec fn recent_limit() -> nat {
    50
}

/// The recent list after visiting `p`: a path not listed yet goes in front,
/// and the oldest falls off beyond the limit; a listed path changes nothing.
pub open spec fn recorded(recent: Seq<Seq<char>>, p: Seq<char>) -> Seq<Seq<char>> {
    if lists_path(recent, p) {
        recent
    } else {
        let r = seq![p] + recent;
        if r.len() > recent_limit() {
            r.drop_last()
        } else {
            r
        }
    }
}

/// The bookmarks after bookmarking `p`: added at the end unless already there.
pub open spec fn bookmarked(b: Seq<Seq<char>>, p: Seq<char>) -> Seq<Seq<char>> {
    if lists_path(b, p) {
        b
    } else {
        b.push(p)
    }
}

/// Whether no two neighbours of `s` are the same path.
pub open spec fn no_adjacent_repeats(s: Seq<Seq<char>>) -> bool {
    forall|i: int| 0 <= i < s.len() - 1 ==> !same_path(#[trigger] s[i], s[i + 1])
}

/// Visiting a directory keeps the recent list free of repeats (as paths)
/// and within its limit, and puts the directory on it.
pub proof fn lemma_recorded_bounded(recent: Seq<Seq<char>>, p: Seq<char>)
    requires
        path_keys(recent).no_duplicates(),
        recent.len() <= recent_limit(),
    ensures
        path_keys(recorded(recent, p)).no_duplicates(),
        recorded(recent, p).len() <= recent_limit(),
        lists_path(recorded(recent, p), p),
        !lists_path(recent, p) ==> recorded(recent, p)[0] == p,
        recorded(recorded(recent, p), p) == recorded(recent, p),
{
    let k = path_keys(recent);
    if !lists_path(recent, p) {
        let r = seq![p] + recent;
        let rk = path_keys(r);
        assert(rk =~= seq![canonical(p)] + k);
        assert forall|i: int, j: int| 0 <= i < j < rk.len() implies rk[i] != rk[j] by {
            if i == 0 {
                assert(rk[j] == k[j - 1]);
            } else {
                assert(rk[i] == k[i - 1] && rk[j] == k[j - 1]);
            }
        }
        assert(rk[0] == canonical(p));
        if r.len() > recent_limit() {
            let d = r.drop_last();
            let dk = path_keys(d);
            assert(dk =~= rk.drop_last());
            assert forall|i: int, j: int| 0 <= i < j < dk.len() implies dk[i] != dk[j] by {
                assert(dk[i] == rk[i] && dk[j] == rk[j]);
            }
            assert(dk[0] == canonical(p));
        }
    }
}

/// Bookmarking a directory a second time changes nothing, and the
/// bookmarks stay free of repeats (as paths).
pub proof fn lemma_bookmark_idempotent(b: Seq<Seq<char>>, p: Seq<char>)
    requires
        path_keys(b).no_duplicates(),
    ensures
        bookmarked(bookmarked(b, p), p) == bookmarked(b, p),
        path_keys(bookmarked(b, p)).no_duplicates(),
        lists_path(bookmarked(b, p), p),
{
    let k = path_keys(b);
    if !lists_path(b, p) {
        let r = b.push(p);
        let rk = path_keys(r);
        assert(rk =~= k.push(canonical(p)));
        assert(rk[rk.len() - 1] == canonical(p));
        assert forall|i: int, j: int| 0 <= i < j < rk.len() implies rk[i] != rk[j] by {
            if j == rk.len() - 1 {
                assert(rk[i] == k[i]);
            } else {
                assert(rk[i] == k[i] && rk[j] == k[j]);
            }
        }
    }
}

/// Removing a bookmark just added (the last one) gives the bookmarks back.
pub proof fn lemma_remove_undoes_bookmark(b: Seq<Seq<char>>, p: Seq<char>)
    requires
        !lists_path(b, p),
    ensures
        bookmarked(b, p).remove(b.len() as int) == b,
{
    assert(b.push(p).remove(b.len() as int) =~= b);
}

proof fn lemma_dedup_shape(s: Seq<Seq<char>>)
    ensures
        no_adjacent_repeats(dedup_spec(s)),
        s.len() > 0 ==> dedup_spec(s).len() > 0 && same_path(dedup_spec(s).last(), s.last()),
        s.len() == 0 ==> dedup_spec(s).len() == 0,
    decreases s.len(),
{
    if s.len() > 1 {
        lemma_dedup_shape(s.drop_last());
        let t = dedup_spec(s.drop_last());
        assert(s.drop_last().last() == s[s.len() - 2]);
        if !same_path(s.last(), s[s.len() - 2]) {
            let r = t.push(s.last());
            assert forall|i: int| 0 <= i < r.len() - 1 implies !same_path(#[trigger] r[i], r[i + 1]) by {
                if i == r.len() - 2 {
                    assert(r[i] == t.last());
                } else {
                    assert(r[i] == t[i] && r[i + 1] == t[i + 1]);
                }
            }
        }
    }
}

proof fn lemma_dedup_fixed(s: Seq<Seq<char>>)
    requires
        no_adjacent_repeats(s),
    ensures
        dedup_spec(s) == s,
    decreases s.len(),
{
    if s.len() > 1 {
        let d = s.drop_last();
        assert(no_adjacent_repeats(d)) by {
            assert forall|i: int| 0 <= i < d.len() - 1 implies !same_path(#[trigger] d[i], d[i + 1]) by {
                assert(!same_path(s[i], s[i + 1]));
            }
        }
        lemma_dedup_fixed(d);
        assert(!same_path(s[s.len() - 2], s[s.len() - 1]));
        assert(d.push(s.last()) =~= s);
    }
}

/// Removing repeated neighbours leaves none, and doing it again changes nothing.
pub proof fn lemma_dedup_idempotent(s: Seq<Seq<char>>)
    ensures
        no_adjacent_repeats(dedup_spec(s)),
        dedup_spec(dedup_spec(s)) == dedup_spec(s),
{
    lemma_dedup_shape(s);
    lemma_dedup_fixed(dedup_spec(s));
}

/// Persistent bookmarks and recently visited directories.
#[derive(Debug, Clone, Default)]
pub struct Config {
    pub bookmarks: Vec<String>,
    pub recent: Vec<String>,
}

/// Whether a path equal to `p`, as `Path` compares paths, is among `v`.
pub fn contains_str(v: &Vec<String>, p: &str) -> (r: bool)
    ensures
        r == lists_path(strs(v@), p@),
{
    let pc = canonical_chars(&chars_of(p));
    let ghost keys = path_keys(strs(v@));
    let mut i: usize = 0;
    while i < v.len()
        invariant
            i <= v.len(),
            pc@ == canonical(p@),
            keys == path_keys(strs(v@)),
            forall|k: int| 0 <= k < i ==> keys[k] != canonical(p@),
        decreases v.len() - i,
    {
        let c = canonical_chars(&chars_of(v[i].as_str()));
        if same_chars(&c, &pc) {
            assert(keys[i as int] == canonical(p@));
            return true;
        }
        i = i + 1;
    }
    proof {
        if keys.contains(canonical(p@)) {
            let k = choose|k: int| 0 <= k < keys.len() && keys[k] == canonical(p@);
            assert(keys[k] != canonical(p@));
        }
    }
    false
}

/// Copies a list of strings.
pub fn copy_strings(v: &Vec<String>) -> (r: Vec<String>)
    ensures
        r@ == v@,
{
    let mut r: Vec<String> = Vec::new();
    let mut i: usize = 0;
    while i < v.len()
        invariant
            i <= v.len(),
            r@ == v@.subrange(0, i as int),
        decreases v.len() - i,
    {
        r.push(v[i].clone());
        i = i + 1;
        assert(r@ =~= v@.subrange(0, i as int));
    }
    assert(v@.subrange(0, v.len() as int) =~= v@);
    r
}

impl Config {
    /// An empty configuration.
    pub fn new() -> (c: Config)
        ensures
            c.bookmarks.len() == 0,
            c.recent.len() == 0,
    {
        Config { bookmarks: Vec::new(), recent: Vec::new() }
    }

    /// Removes repeated neighbouring bookmarks, as loading does.
    pub fn dedup_bookmarks(&mut self)
        ensures
            strs(final(self).bookmarks@) == dedup_spec(strs(old(self).bookmarks@)),
            final(self).recent == old(self).recent,
    {
        let mut out: Vec<String> = Vec::new();
        let mut prev: Vec<char> = Vec::new();
        let mut i: usize = 0;
        let ghost b = strs(self.bookmarks@);
        while i < self.bookmarks.len()
            invariant
                i <= self.bookmarks.len(),
                b == strs(self.bookmarks@),
                strs(out@) == dedup_spec(b.subrange(0, i as int)),
                i > 0 ==> prev@ == canonical(b[i - 1]),
            decreases self.bookmarks.len() - i,
        {
            let cur = canonical_chars(&chars_of(self.bookmarks[i].as_str()));
            assert(b.subrange(0, i + 1).drop_last() =~= b.subrange(0, i as int));
            if i > 0 && same_chars(&cur, &prev) {
            } else {
                let ghost o = strs(out@);
                out.push(self.bookmarks[i].clone());
                assert(strs(out@) =~= o.push(b[i as int]));
                if i == 0 {
                    assert(b.subrange(0, 1) =~= seq![b[0]]);
                    assert(dedup_spec(b.subrange(0, 0)) =~= Seq::<Seq<char>>::empty());
                    assert(o.push(b[0]) =~= seq![b[0]]);
                }
            }
            prev = cur;
            i = i + 1;
        }
        assert(b.subrange(0, i as int) =~= b);
        self.bookmarks = out;
    }

    /// Records a visit to `path`; returns whether the list changed (and so
    /// needs saving).
    pub fn record_recent(&mut self, path: &str) -> (changed: bool)
        ensures
            strs(final(self).recent@) == recorded(strs(old(self).recent@), path@),
            changed == !lists_path(strs(old(self).recent@), path@),
            final(self).bookmarks == old(self).bookmarks,
    {
        if contains_str(&self.recent, path) {
            return false;
        }
        let ghost before = strs(self.recent@);
        self.recent.insert(0, String::from_str(path));
        assert(strs(self.recent@) =~= seq![path@] + before);
        if self.recent.len() > 50 {
            let _ = self.recent.pop();
            assert(strs(self.recent@) =~= (seq![path@] + before).drop_last());
        }
        true
    }

    /// Bookmarks `path` unless it is bookmarked already; returns whether it was added.
    pub fn add_bookmark(&mut self, path: &str) -> (added: bool)
        ensures
            added == !lists_path(strs(old(self).bookmarks@), path@),
            strs(final(self).bookmarks@) == bookmarked(strs(old(self).bookmarks@), path@),
            final(self).recent == old(self).recent,
    {
        if contains_str(&self.bookmarks, path) {
            return false;
        }
        let ghost before = strs(self.bookmarks@);
        self.bookmarks.push(String::from_str(path));
        assert(strs(self.bookmarks@) =~= before.push(path@));
        true
    }

    /// Removes the bookmark at `index`, if there is one.
    pub fn remove_bookmark(&mut self, index: usize)
        ensures
            strs(final(self).bookmarks@) == if index < old(self).bookmarks.len() {
                strs(old(self).bookmarks@).remove(index as int)
            } else {
                strs(old(self).bookmarks@)
            },
            final(self).recent == old(self).recent,
    {
        if index < self.bookmarks.len() {
            let ghost before = strs(self.bookmarks@);
            let _ = self.bookmarks.remove(index);
            assert(strs(self.bookmarks@) =~= before.remove(index as int));
        }
    }

    /// Removes the recent entry at `index`, if there is one.
    pub fn remove_recent(&mut self, index: usize)
        ensures
            strs(final(self).recent@) == if index < old(self).recent.len() {
                strs(old(self).recent@).remove(index as int)
            } else {
                strs(old(self).recent@)
            },
            final(self).bookmarks == old(self).bookmarks,
    {
        if index < self.recent.len() {
            let ghost before = strs(self.recent@);
            let _ = self.recent.remove(index);
            assert(strs(self.recent@) =~= before.remove(index as int));
        }
    }
}

} // verus!
