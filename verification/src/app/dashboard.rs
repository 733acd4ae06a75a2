use vstd::prelude::*;
use vstd::relations::*;
use crate::fs::walker::pairs_view;
use crate::paths::{extension, extension_chars};
use crate::sort::{arrangement, arranged, by_key_desc, is_index_permutation, lemma_arrangement, order_by_key_desc};
use crate::text::{chars_of, lowercase, same_chars, string_of, to_lowercase};

verus! {

/// What kind of thing a directory listing entry is.
#[derive(Debug, Clone, Copy, PartialEq, Eq, Structural)]
pub enum ListingKind {
    Directory,
    File,
    Other,
}

/// One entry of a directory listing: its name, kind and byte size.
#[derive(Debug, Clone)]
pub struct ListingEntry {
    pub name: String,
    pub kind: ListingKind,
    pub size: u64,
}

/// A summary of the entries directly inside a directory.
#[derive(Debug, Clone)]
pub struct FolderDashboardSummary {
    pub path: String,
    pub file_count: usize,
    pub dir_count: usize,
    pub total_immediate_size: u64,
    /// The largest files, biggest first: name and size.
    pub top_files: Vec<(String, u64)>,
    /// Each extension (lower case, or `no ext`) with its number of files, most first.
    pub extension_counts: Vec<(String, usize)>,
}

/// The files of a listing, as name and size, in listing order.
pub open spec fn listed_files(l: Seq<ListingEntry>) -> Seq<(Seq<char>, u64)>
    decreases l.len(),
{
    if l.len() == 0 {
        Seq::empty()
    } else if l.last().kind == ListingKind::File {
        listed_files(l.drop_last()).push((l.last().name@, l.last().size))
    } else {
        listed_files(l.drop_last())
    }
}

/// The number of directories in a listing.
pub open spec fn listed_dirs(l: Seq<ListingEntry>) -> nat
    decreases l.len(),
{
    if l.len() == 0 {
        0
    } else if l.last().kind == ListingKind::Directory {
        listed_dirs(l.drop_last()) + 1
    } else {
        listed_dirs(l.drop_last())
    }
}

/// The total of the sizes.
pub open spec fn sizes_total(f: Seq<(Seq<char>, u64)>) -> nat
    decreases f.len(),
{
    if f.len() == 0 {
        0
    } else {
        sizes_total(f.drop_last()) + f.last().1 as nat
    }
}

/// The extension a file is counted under: its extension in lower case, or `no ext`.
pub open spec fn ext_key(name: Seq<char>) -> Seq<char> {
    match extension(name) {
        Some(e) => lowercase(e),
        None => "no ext"@,
    }
}

/// The first position of the key `k` in a tally, or -1.
pub open spec fn key_index(t: Seq<(Seq<char>, nat)>, k: Seq<char>) -> int
    decreases t.len(),
{
    if t.len() == 0 {
        -1
    } else {
        let j = key_index(t.drop_last(), k);
        if j >= 0 {
            j
        } else if t.last().0 == k {
            t.len() - 1
        } else {
            -1
        }
    }
}

/// How often each key occurs, keys in order of first occurrence.
pub open spec fn tally(keys: Seq<Seq<char>>) -> Seq<(Seq<char>, nat)>
    decreases keys.len(),
{
    if keys.len() == 0 {
        Seq::empty()
    } else {
        let t = tally(keys.drop_last());
        let i = key_index(t, keys.last());
        if i >= 0 {
            t.update(i, (keys.last(), t[i].1 + 1))
        } else {
            t.push((keys.last(), 1))
        }
    }
}

/// The largest of the files (at most five), biggest first, equal sizes in
/// listing order.
pub open spec fn largest_files(f: Seq<(Seq<char>, u64)>) -> Seq<(Seq<char>, u64)> {
    let sorted = arrangement(f, by_key_desc(f.map_values(|x: (Seq<char>, u64)| x.1)));
    if sorted.len() <= 5 {
        sorted
    } else {
        sorted.take(5)
    }
}

/// A tally ordered by count, most first; equal counts in order of first occurrence.
pub open spec fn tally_by_count(t: Seq<(Seq<char>, nat)>) -> Seq<(Seq<char>, nat)> {
    arrangement(t, by_key_desc(t.map_values(|x: (Seq<char>, nat)| x.1 as u64)))
}

/// The texts of a tally.
pub open spec fn tally_view(t: Seq<(String, usize)>) -> Seq<(Seq<char>, nat)> {
    t.map_values(|x: (String, usize)| (x.0@, x.1 as nat))
}

proof fn lemma_key_index(t: Seq<(Seq<char>, nat)>, k: Seq<char>, m: int)
    requires
        0 <= m <= t.len(),
        forall|j: int| 0 <= j < m ==> t[j].0 != k,
        m < t.len() ==> t[m].0 == k,
    ensures
        key_index(t, k) == if m < t.len() {
            m
        } else {
            -1
        },
    decreases t.len(),
{
    if t.len() > 0 {
        if m < t.len() - 1 {
            lemma_key_index(t.drop_last(), k, m);
        } else {
            lemma_key_index(t.drop_last(), k, t.len() - 1);
        }
    }
}

proof fn lemma_total_prefix(l: Seq<ListingEntry>, i: int)
    requires
        0 <= i <= l.len(),
    ensures
        sizes_total(listed_files(l.subrange(0, i))) <= sizes_total(listed_files(l)),
    decreases l.len(),
{
    if i < l.len() {
        assert(l.drop_last().subrange(0, i) =~= l.subrange(0, i));
        lemma_total_prefix(l.drop_last(), i);
        let f0 = listed_files(l.drop_last());
        if l.last().kind == ListingKind::File {
            assert(listed_files(l).drop_last() =~= f0);
        }
    } else {
        assert(l.subrange(0, i) =~= l);
    }
}

fn ext_key_of(name: &str) -> (r: Vec<char>)
    ensures
        r@ == ext_key(name@),
{
    match extension_chars(&chars_of(name)) {
        Some(e) => chars_of(to_lowercase(string_of(&e).as_str()).as_str()),
        None => chars_of("no ext"),
    }
}

fn find_key(t: &Vec<(String, usize)>, key: &Vec<char>) -> (r: Option<usize>)
    ensures
        match r {
            Some(j) => j < t.len() && tally_view(t@)[j as int].0 == key@ && forall|x: int|
                0 <= x < j ==> tally_view(t@)[x].0 != key@,
            None => forall|x: int| 0 <= x < t.len() ==> tally_view(t@)[x].0 != key@,
        },
{
    let mut j: usize = 0;
    while j < t.len()
        invariant
            j <= t.len(),
            forall|x: int| 0 <= x < j ==> tally_view(t@)[x].0 != key@,
        decreases t.len() - j,
    {
        let c = chars_of(t[j].0.as_str());
        if same_chars(&c, key) {
            return Some(j);
        }
        j = j + 1;
    }
    None
}

impl FolderDashboardSummary {
    /// Summarises the listing of the directory `path`: how many files and
    /// directories it holds, the files' total size, its five largest files,
    /// and how many files carry each extension.
    pub fn from_listing(path: String, listing: &Vec<ListingEntry>) -> (s: Self)
        requires
            sizes_total(listed_files(listing@)) <= u64::MAX,
        ensures
            s.path@ == path@,
            s.file_count == listed_files(listing@).len(),
            s.dir_count == listed_dirs(listing@),
            s.total_immediate_size == sizes_total(listed_files(listing@)),
            pairs_view(s.top_files@) == largest_files(listed_files(listing@)),
            tally_view(s.extension_counts@) == tally_by_count(
                tally(listed_files(listing@).map_values(|x: (Seq<char>, u64)| ext_key(x.0))),
            ),
    {
        let ghost l = listing@;
        let mut files: Vec<(String, u64)> = Vec::new();
        let mut sizes: Vec<u64> = Vec::new();
        let mut dirs: usize = 0;
        let mut total: u64 = 0;
        let mut i: usize = 0;
        while i < listing.len()
            invariant
                i <= listing.len(),
                l == listing@,
                pairs_view(files@) == listed_files(l.subrange(0, i as int)),
                sizes@ == files@.map_values(|x: (String, u64)| x.1),
                dirs == listed_dirs(l.subrange(0, i as int)),
                dirs <= i,
                total == sizes_total(listed_files(l.subrange(0, i as int))),
                sizes_total(listed_files(l)) <= u64::MAX,
            decreases listing.len() - i,
        {
            assert(l.subrange(0, i + 1).drop_last() =~= l.subrange(0, i as int));
            proof {
                lemma_total_prefix(l, i + 1);
            }
            let e = &listing[i];
            match e.kind {
                ListingKind::File => {
                    let ghost before = files@;
                    let ghost f0 = listed_files(l.subrange(0, i as int));
                    assert(listed_files(l.subrange(0, i + 1)) == f0.push((e.name@, e.size)));
                    assert(f0.push((e.name@, e.size)).drop_last() =~= f0);
                    files.push((e.name.clone(), e.size));
                    sizes.push(e.size);
                    total = total + e.size;
                    assert(pairs_view(files@) =~= pairs_view(before).push((e.name@, e.size)));
                    assert(sizes@ =~= files@.map_values(|x: (String, u64)| x.1));
                },
                ListingKind::Directory => {
                    dirs = dirs + 1;
                },
                ListingKind::Other => {},
            }
            i = i + 1;
        }
        assert(l.subrange(0, l.len() as int) =~= l);
        let ghost f = listed_files(l);
        // the five largest files
        let perm = order_by_key_desc(&sizes);
        proof {
            let fk = f.map_values(|x: (Seq<char>, u64)| x.1);
            assert(fk =~= sizes@);
            let r = perm@.map_values(|k: usize| f[k as int]);
            assert(arranged(f, by_key_desc(fk), r));
            assert(total_ordering(by_key_desc(fk)));
            lemma_arrangement(f, by_key_desc(fk), r);
        }
        let keep: usize = if perm.len() <= 5 {
            perm.len()
        } else {
            5
        };
        let mut top: Vec<(String, u64)> = Vec::new();
        let mut k: usize = 0;
        while k < keep
            invariant
                k <= keep <= perm.len(),
                perm.len() == files.len(),
                forall|x: int| 0 <= x < perm.len() ==> perm[x] < files.len(),
                pairs_view(top@) == perm@.subrange(0, k as int).map_values(
                    |j: usize| pairs_view(files@)[j as int],
                ),
            decreases keep - k,
        {
            let pick = &files[perm[k]];
            let ghost before = top@;
            top.push((pick.0.clone(), pick.1));
            assert(pairs_view(top@) =~= pairs_view(before).push(pairs_view(files@)[perm@[k as int] as int]));
            k = k + 1;
            assert(pairs_view(top@) =~= perm@.subrange(0, k as int).map_values(
                |j: usize| pairs_view(files@)[j as int],
            ));
        }
        assert(pairs_view(top@) =~= largest_files(f));
        // the extension tally
        let ghost keys = f.map_values(|x: (Seq<char>, u64)| ext_key(x.0));
        let mut t: Vec<(String, usize)> = Vec::new();
        let mut counts: Vec<u64> = Vec::new();
        let mut m: usize = 0;
        while m < files.len()
            invariant
                m <= files.len(),
                pairs_view(files@) == f,
                keys == f.map_values(|x: (Seq<char>, u64)| ext_key(x.0)),
                tally_view(t@) == tally(keys.subrange(0, m as int)),
                counts@ == t@.map_values(|x: (String, usize)| x.1 as u64),
                forall|j: int| 0 <= j < t.len() ==> t@[j].1 <= m,
            decreases files.len() - m,
        {
            assert(keys.subrange(0, m + 1).drop_last() =~= keys.subrange(0, m as int));
            let key = ext_key_of(files[m].0.as_str());
            assert(key@ == keys[m as int]);
            let ghost tv = tally_view(t@);
            let found = find_key(&t, &key);
            if let Some(j) = found {
                proof {
                    lemma_key_index(tv, key@, j as int);
                }
                let name = t[j].0.clone();
                let n = t[j].1 + 1;
                t.set(j, (name, n));
                counts.set(j, n as u64);
                assert(tally_view(t@) =~= tv.update(j as int, (key@, tv[j as int].1 + 1)));
                assert(counts@ =~= t@.map_values(|x: (String, usize)| x.1 as u64));
            } else {
                proof {
                    lemma_key_index(tv, key@, tv.len() as int);
                }
                t.push((string_of(&key), 1));
                counts.push(1);
                assert(tally_view(t@) =~= tv.push((key@, 1)));
                assert(counts@ =~= t@.map_values(|x: (String, usize)| x.1 as u64));
            }
            m = m + 1;
        }
        assert(keys.subrange(0, keys.len() as int) =~= keys);
        let ghost tl = tally(keys);
        let perm2 = order_by_key_desc(&counts);
        proof {
            let ck = tl.map_values(|x: (Seq<char>, nat)| x.1 as u64);
            assert(ck =~= counts@);
            let r = perm2@.map_values(|k: usize| tl[k as int]);
            assert(arranged(tl, by_key_desc(ck), r));
            assert(total_ordering(by_key_desc(ck)));
            lemma_arrangement(tl, by_key_desc(ck), r);
        }
        let mut ranked: Vec<(String, usize)> = Vec::new();
        let mut q: usize = 0;
        while q < perm2.len()
            invariant
                q <= perm2.len(),
                perm2.len() == t.len(),
                forall|x: int| 0 <= x < perm2.len() ==> perm2[x] < t.len(),
                tally_view(ranked@) == perm2@.subrange(0, q as int).map_values(
                    |j: usize| tally_view(t@)[j as int],
                ),
            decreases perm2.len() - q,
        {
            let pick = &t[perm2[q]];
            let ghost before = ranked@;
            ranked.push((pick.0.clone(), pick.1));
            assert(tally_view(ranked@) =~= tally_view(before).push(tally_view(t@)[perm2@[q as int] as int]));
            q = q + 1;
            assert(tally_view(ranked@) =~= perm2@.subrange(0, q as int).map_values(
                |j: usize| tally_view(t@)[j as int],
            ));
        }
        assert(perm2@.subrange(0, perm2.len() as int) =~= perm2@);
        FolderDashboardSummary {
            path,
            file_count: files.len(),
            dir_count: dirs,
            total_immediate_size: total,
            top_files: top,
            extension_counts: ranked,
        }
    }
}

} // verus!
