use vstd::prelude::*;
use vstd::relations::*;
use crate::text::{chars_of, push_chars, same_chars, starts_with_chars, string_of};

verus! {

// Paths are handled as text with `/` as the separator. `Path` compares paths
// by their components, and so does this library wherever two paths are
// compared (`canonical`, `same_path`); `file_name` and `parent` pass over
// trailing separators and `.` components as `Path` does. Prefix relations
// (a path below a directory, the relative path shown for it) are taken on
// the text, as directory walking writes every path below its root with the
// root's own spelling.

/// `out` with the component `part` added, as `Path` keeps components: an
/// empty part (from repeated separators) and a `.` part other than a
/// leading one are dropped.
pub open spec fn add_part(out: Seq<char>, part: Seq<char>, leading: bool) -> Seq<char> {
    if part.len() == 0 || (part == seq!['.'] && !leading) {
        out
    } else if out.len() == 0 || out == seq!['/'] {
        out + part
    } else {
        out + seq!['/'] + part
    }
}

/// The components of `p` from position `i` on, added to `out`, while the
/// current part `part` is being read (`leading` when it starts the path).
pub open spec fn canon_scan(p: Seq<char>, i: int, out: Seq<char>, part: Seq<char>, leading: bool) -> Seq<char>
    decreases p.len() - i,
{
    if i >= p.len() {
        add_part(out, part, leading)
    } else if p[i] == '/' {
        canon_scan(p, i + 1, add_part(out, part, leading), Seq::empty(), false)
    } else {
        canon_scan(p, i + 1, out, part.push(p[i]), leading)
    }
}

/// The components of `p` as `Path::components` reads them, written out: a
/// root, then the parts joined by single separators, without empty parts
/// and `.` parts (but a leading `.`). Two paths are equal as `Path`
/// compares them exactly when these are.
pub open spec fn canonical(p: Seq<char>) -> Seq<char> {
    canon_scan(
        p,
        0,
        if p.len() > 0 && p[0] == '/' {
            seq!['/']
        } else {
            Seq::empty()
        },
        Seq::empty(),
        true,
    )
}

/// `a` and `b` name the same path, as `Path` compares them.
pub open spec fn same_path(a: Seq<char>, b: Seq<char>) -> bool {
    canonical(a) == canonical(b)
}

/// Computes `add_part`.
fn add_part_chars(out: &mut Vec<char>, part: &Vec<char>, leading: bool)
    ensures
        final(out)@ == add_part(old(out)@, part@, leading),
{
    if part.len() == 0 || (part.len() == 1 && part[0] == '.' && !leading) {
        assert(part.len() == 1 && part[0] == '.' ==> part@ =~= seq!['.']);
        return;
    }
    assert(part@ != seq!['.'] || leading) by {
        if part@ == seq!['.'] {
            assert(part@.len() == 1 && part@[0] == '.');
        }
    }
    if out.len() == 0 || (out.len() == 1 && out[0] == '/') {
        assert(out.len() == 1 && out[0] == '/' ==> out@ =~= seq!['/']);
        push_chars(out, part);
    } else {
        assert(out@ != seq!['/']) by {
            if out@ == seq!['/'] {
                assert(out@.len() == 1 && out@[0] == '/');
            }
        }
        out.push('/');
        push_chars(out, part);
    }
}

/// Computes `canonical`.
pub fn canonical_chars(p: &Vec<char>) -> (r: Vec<char>)
    ensures
        r@ == canonical(p@),
{
    let mut out: Vec<char> = Vec::new();
    if p.len() > 0 && p[0] == '/' {
        out.push('/');
    }
    assert(out@ == if p@.len() > 0 && p@[0] == '/' { seq!['/'] } else { Seq::<char>::empty() });
    let mut part: Vec<char> = Vec::new();
    let mut leading = true;
    let mut i: usize = 0;
    while i < p.len()
        invariant
            i <= p.len(),
            canon_scan(p@, i as int, out@, part@, leading) == canonical(p@),
        decreases p.len() - i,
    {
        if p[i] == '/' {
            add_part_chars(&mut out, &part, leading);
            part = Vec::new();
            leading = false;
        } else {
            part.push(p[i]);
        }
        i = i + 1;
    }
    add_part_chars(&mut out, &part, leading);
    out
}

/// Whether `a` and `b` name the same path.
pub fn same_path_chars(a: &Vec<char>, b: &Vec<char>) -> (r: bool)
    ensures
        r == same_path(a@, b@),
{
    let ca = canonical_chars(a);
    let cb = canonical_chars(b);
    same_chars(&ca, &cb)
}

/// The sort key of a path character: the separator sorts before every other
/// character, so that comparing keys compares paths component by component.
pub open spec fn sep_key(c: char) -> int {
    if c == '/' {
        0
    } else {
        c as u32 as int + 1
    }
}

/// `a` sorts before or equal to `b`, component by component.
pub open spec fn path_le(a: Seq<char>, b: Seq<char>) -> bool
    decreases a.len(),
{
    if a.len() == 0 {
        true
    } else if b.len() == 0 {
        false
    } else if sep_key(a[0]) < sep_key(b[0]) {
        true
    } else if sep_key(a[0]) > sep_key(b[0]) {
        false
    } else {
        path_le(a.drop_first(), b.drop_first())
    }
}

proof fn lemma_key_injective(a: char, b: char)
    ensures
        sep_key(a) == sep_key(b) ==> a == b,
{
    if sep_key(a) == sep_key(b) {
        if a != '/' && b != '/' {
            assert(a as u32 == b as u32);
        }
    }
}

/// Every path sorts before or equal to itself.
pub proof fn lemma_path_le_refl(a: Seq<char>)
    ensures
        path_le(a, a),
    decreases a.len(),
{
    if a.len() > 0 {
        lemma_path_le_refl(a.drop_first());
    }
}

/// Two paths that sort before or equal to each other are the same.
pub proof fn lemma_path_le_antisym(a: Seq<char>, b: Seq<char>)
    requires
        path_le(a, b),
        path_le(b, a),
    ensures
        a == b,
    decreases a.len(),
{
    if a.len() == 0 {
        assert(b.len() == 0);
        assert(a =~= b);
    } else {
        lemma_key_injective(a[0], b[0]);
        lemma_path_le_antisym(a.drop_first(), b.drop_first());
        assert(a =~= seq![a[0]] + a.drop_first());
        assert(b =~= seq![b[0]] + b.drop_first());
    }
}

/// The path order is transitive.
pub proof fn lemma_path_le_trans(a: Seq<char>, b: Seq<char>, c: Seq<char>)
    requires
        path_le(a, b),
        path_le(b, c),
    ensures
        path_le(a, c),
    decreases a.len(),
{
    if a.len() > 0 && b.len() > 0 && c.len() > 0 {
        if sep_key(a[0]) == sep_key(b[0]) && sep_key(b[0]) == sep_key(c[0]) {
            lemma_path_le_trans(a.drop_first(), b.drop_first(), c.drop_first());
        }
    }
}

/// Any two paths are ordered one way or the other.
pub proof fn lemma_path_le_total(a: Seq<char>, b: Seq<char>)
    ensures
        path_le(a, b) || path_le(b, a),
    decreases a.len(),
{
    if a.len() > 0 && b.len() > 0 {
        lemma_path_le_total(a.drop_first(), b.drop_first());
    }
}

/// `path_le` is a total order on paths.
pub proof fn lemma_path_le_total_ordering()
    ensures
        total_ordering(|a: Seq<char>, b: Seq<char>| path_le(a, b)),
{
    let r = |a: Seq<char>, b: Seq<char>| path_le(a, b);
    assert forall|a: Seq<char>| #[trigger] r(a, a) by {
        lemma_path_le_refl(a);
    }
    assert forall|a: Seq<char>, b: Seq<char>| #[trigger] r(a, b) && #[trigger] r(b, a) implies a
        == b by {
        lemma_path_le_antisym(a, b);
    }
    assert forall|a: Seq<char>, b: Seq<char>, c: Seq<char>| #[trigger] r(a, b) && #[trigger] r(
        b,
        c,
    ) implies r(a, c) by {
        lemma_path_le_trans(a, b, c);
    }
    assert forall|a: Seq<char>, b: Seq<char>| #[trigger] r(a, b) || #[trigger] r(b, a) by {
        lemma_path_le_total(a, b);
    }
}

/// Decides `path_le`.
pub fn path_le_chars(a: &Vec<char>, b: &Vec<char>) -> (r: bool)
    ensures
        r == path_le(a@, b@),
{
    let mut i: usize = 0;
    assert(a@.subrange(0, a.len() as int) =~= a@);
    assert(b@.subrange(0, b.len() as int) =~= b@);
    while i < a.len() && i < b.len()
        invariant
            i <= a.len(),
            i <= b.len(),
            path_le(a@, b@) == path_le(
                a@.subrange(i as int, a.len() as int),
                b@.subrange(i as int, b.len() as int),
            ),
        decreases a.len() - i,
    {
        let ka: u64 = if a[i] == '/' {
            0
        } else {
            (a[i] as u32) as u64 + 1
        };
        let kb: u64 = if b[i] == '/' {
            0
        } else {
            (b[i] as u32) as u64 + 1
        };
        let ghost sa = a@.subrange(i as int, a.len() as int);
        let ghost sb = b@.subrange(i as int, b.len() as int);
        assert(sa[0] == a@[i as int]);
        assert(sb[0] == b@[i as int]);
        if ka < kb {
            return true;
        }
        if ka > kb {
            return false;
        }
        assert(sa.drop_first() =~= a@.subrange(i + 1, a.len() as int));
        assert(sb.drop_first() =~= b@.subrange(i + 1, b.len() as int));
        i = i + 1;
    }
    i >= a.len()
}

/// `p` lies strictly below the directory `d`: it starts with `d` and a separator.
pub open spec fn is_under(p: Seq<char>, d: Seq<char>) -> bool {
    p.len() > d.len() && p.subrange(0, d.len() as int) == d && p[d.len() as int] == '/'
}

/// A path below `d` sorts after `d`.
pub proof fn lemma_under_after(p: Seq<char>, d: Seq<char>)
    requires
        is_under(p, d),
    ensures
        path_le(d, p),
        !path_le(p, d),
    decreases d.len(),
{
    if d.len() > 0 {
        assert(p[0] == d[0]);
        assert(p.drop_first().subrange(0, d.drop_first().len() as int) =~= d.drop_first());
        lemma_under_after(p.drop_first(), d.drop_first());
    }
}

/// Between `d` and a path below `d` there is only `d` itself or paths below `d`.
pub proof fn lemma_between_under(d: Seq<char>, x: Seq<char>, y: Seq<char>)
    requires
        path_le(d, x),
        path_le(x, y),
        is_under(y, d),
    ensures
        x == d || is_under(x, d),
    decreases d.len(),
{
    if d.len() == 0 {
        if x.len() > 0 {
            assert(y.len() > 0);
            assert(y[0] == '/');
            assert(sep_key(x[0]) <= sep_key(y[0]));
            assert(sep_key(x[0]) == 0);
            lemma_key_injective(x[0], '/');
            assert(x.subrange(0, 0) =~= d);
        } else {
            assert(x =~= d);
        }
    } else {
        assert(y[0] == d[0]);
        assert(x.len() > 0);
        assert(sep_key(d[0]) <= sep_key(x[0]));
        assert(sep_key(x[0]) <= sep_key(y[0]));
        lemma_key_injective(x[0], d[0]);
        assert(x[0] == d[0]);
        let d1 = d.drop_first();
        let x1 = x.drop_first();
        let y1 = y.drop_first();
        assert(y1.subrange(0, d1.len() as int) =~= d1) by {
            assert forall|k: int| 0 <= k < d1.len() implies y1.subrange(0, d1.len() as int)[k]
                == d1[k] by {
                assert(y.subrange(0, d.len() as int)[k + 1] == d[k + 1]);
            }
        }
        assert(y1[d1.len() as int] == y[d.len() as int]);
        assert(is_under(y1, d1));
        assert(path_le(d1, x1));
        assert(path_le(x1, y1));
        lemma_between_under(d1, x1, y1);
        if x1 == d1 {
            assert(x =~= seq![x[0]] + x1);
            assert(d =~= seq![d[0]] + d1);
        } else {
            assert(x.len() > d.len());
            assert(x.subrange(0, d.len() as int) =~= d) by {
                assert forall|k: int| 0 <= k < d.len() implies x.subrange(0, d.len() as int)[k]
                    == d[k] by {
                    if k > 0 {
                        assert(x1.subrange(0, d1.len() as int)[k - 1] == d1[k - 1]);
                    }
                }
            }
            assert(x[d.len() as int] == x1[d1.len() as int]);
        }
    }
}

/// Decides `is_under`.
pub fn is_under_chars(p: &Vec<char>, d: &Vec<char>) -> (r: bool)
    ensures
        r == is_under(p@, d@),
{
    if p.len() <= d.len() {
        return false;
    }
    if !starts_with_chars(p, d) {
        return false;
    }
    p[d.len()] == '/'
}

/// Position of the last `c` in `s`.
pub open spec fn last_index_of(s: Seq<char>, c: char) -> Option<int> {
    if exists|i: int| 0 <= i < s.len() && s[i] == c {
        Some(choose|i: int| 0 <= i < s.len() && s[i] == c && forall|k: int| i < k < s.len() ==> s[k] != c)
    } else {
        None
    }
}

/// The last position of `c` in `s`, if it occurs.
pub fn rfind_char(s: &Vec<char>, c: char) -> (r: Option<usize>)
    ensures
        match r {
            Some(i) => i < s.len() && s@[i as int] == c && forall|k: int|
                i < k < s.len() ==> s@[k] != c,
            None => forall|k: int| 0 <= k < s.len() ==> s@[k] != c,
        },
        r matches Some(i) ==> last_index_of(s@, c) == Some(i as int),
        r is None ==> last_index_of(s@, c) is None,
{
    let mut i: usize = s.len();
    while i > 0
        invariant
            i <= s.len(),
            forall|k: int| i <= k < s.len() ==> s@[k] != c,
        decreases i,
    {
        if s[i - 1] == c {
            proof {
                let j = choose|j: int|
                    0 <= j < s.len() && s@[j] == c && forall|k: int| j < k < s.len() ==> s@[k] != c;
                if j < i - 1 {
                    assert(s@[i - 1] != c);
                } else if j > i - 1 {
                    assert(s@[j] != c);
                }
            }
            return Some(i - 1);
        }
        i = i - 1;
    }
    None
}

/// `p` without its trailing separators and trailing `.` components, which
/// do not change the entry that a path names.
#[verifier::opaque]
pub open spec fn trim_tail(p: Seq<char>) -> Seq<char>
    decreases p.len(),
{
    if p.len() > 0 && p.last() == '/' {
        trim_tail(p.drop_last())
    } else if p.len() >= 2 && p.last() == '.' && p[p.len() - 2] == '/' {
        trim_tail(p.drop_last())
    } else {
        p
    }
}

/// The last component of `p`, when it names an entry (not empty, `.` or
/// `..`); trailing separators and trailing `.` components are passed over.
pub open spec fn file_name(p: Seq<char>) -> Option<Seq<char>> {
    name_after_last_sep(trim_tail(p))
}

/// The text after the last separator of `p`, when it names an entry (not
/// empty, `.` or `..`).
pub open spec fn name_after_last_sep(p: Seq<char>) -> Option<Seq<char>> {
    let tail = match last_index_of(p, '/') {
        Some(k) => p.subrange(k + 1, p.len() as int),
        None => p,
    };
    if tail.len() == 0 || tail == seq!['.'] || tail == seq!['.', '.'] {
        None
    } else {
        Some(tail)
    }
}

/// `p` without its trailing separators and trailing `.` components.
pub fn trim_tail_chars(p: &Vec<char>) -> (r: Vec<char>)
    ensures
        r@ == trim_tail(p@),
{
    let mut n: usize = p.len();
    assert(p@.subrange(0, n as int) =~= p@);
    while n > 0 && (p[n - 1] == '/' || (n >= 2 && p[n - 1] == '.' && p[n - 2] == '/'))
        invariant
            n <= p.len(),
            trim_tail(p@.subrange(0, n as int)) == trim_tail(p@),
        decreases n,
    {
        let ghost q = p@.subrange(0, n as int);
        assert(q.drop_last() =~= p@.subrange(0, n - 1));
        assert(trim_tail(q) == trim_tail(q.drop_last())) by {
            reveal(trim_tail);
        }
        n = n - 1;
    }
    let mut t: Vec<char> = Vec::new();
    let mut i: usize = 0;
    while i < n
        invariant
            i <= n <= p.len(),
            t@ == p@.subrange(0, i as int),
        decreases n - i,
    {
        t.push(p[i]);
        i = i + 1;
        assert(t@ =~= p@.subrange(0, i as int));
    }
    proof {
        let q = p@.subrange(0, n as int);
        assert(t@ == q);
        assert(trim_tail(q) == q) by {
            reveal(trim_tail);
            if q.len() > 0 && q.last() == '/' {
                assert(p@[n - 1] == '/');
            }
            if q.len() >= 2 && q.last() == '.' && q[q.len() - 2] == '/' {
                assert(p@[n - 1] == '.' && p@[n - 2] == '/');
            }
        }
    }
    t
}

/// The last component of `p`.
pub fn file_name_chars(p: &Vec<char>) -> (r: Option<Vec<char>>)
    ensures
        match r {
            Some(v) => file_name(p@) == Some(v@),
            None => file_name(p@) is None,
        },
{
    let t = trim_tail_chars(p);
    last_name_chars(&t)
}

/// The plain form of the directory path `p`: `Path` compares paths by their
/// components, so trailing separators and trailing `.` components are
/// dropped, and a path made of the root alone stays the root.
pub open spec fn dir_form(p: Seq<char>) -> Seq<char> {
    if trim_tail(p).len() == 0 && p.len() > 0 && p[0] == '/' {
        seq!['/']
    } else {
        trim_tail(p)
    }
}

/// The plain form of the directory path `p`.
pub fn dir_form_string(p: &str) -> (r: String)
    ensures
        r@ == dir_form(p@),
{
    let cs = chars_of(p);
    string_of(&dir_form_chars(&cs))
}

/// The text after the last separator of `p`, when it names an entry.
fn last_name_chars(p: &Vec<char>) -> (r: Option<Vec<char>>)
    ensures
        match r {
            Some(v) => name_after_last_sep(p@) == Some(v@),
            None => name_after_last_sep(p@) is None,
        },
{
    let start = match rfind_char(p, '/') {
        Some(k) => k + 1,
        None => 0,
    };
    let mut tail: Vec<char> = Vec::new();
    let mut i = start;
    while i < p.len()
        invariant
            start <= i <= p.len(),
            tail@ == p@.subrange(start as int, i as int),
        decreases p.len() - i,
    {
        tail.push(p[i]);
        i = i + 1;
        assert(tail@ =~= p@.subrange(start as int, i as int));
    }
    assert(start == 0 ==> p@.subrange(0, p.len() as int) =~= p@);
    if tail.len() == 0 || (tail.len() == 1 && tail[0] == '.') || (tail.len() == 2 && tail[0] == '.'
        && tail[1] == '.') {
        assert(tail.len() == 1 && tail[0] == '.' ==> tail@ =~= seq!['.']);
        assert(tail.len() == 2 && tail[0] == '.' && tail[1] == '.' ==> tail@ =~= seq!['.', '.']);
        None
    } else {
        assert(tail@ != seq!['.'] && tail@ != seq!['.', '.']) by {
            if tail@ == seq!['.'] {
                assert(tail@[0] == '.');
            }
            if tail@ == seq!['.', '.'] {
                assert(tail@[0] == '.' && tail@[1] == '.');
            }
        }
        Some(tail)
    }
}

/// The last component of `p`, or the empty text when `p` has none.
pub open spec fn file_name_or_empty(p: Seq<char>) -> Seq<char> {
    match file_name(p) {
        Some(n) => n,
        None => Seq::empty(),
    }
}

/// The last component of `p` as a `String`, or the empty string.
pub fn file_name_string(p: &str) -> (r: String)
    ensures
        r@ == file_name_or_empty(p@),
{
    let cs = chars_of(p);
    match file_name_chars(&cs) {
        Some(v) => string_of(&v),
        None => String::new(),
    }
}

/// The directory that contains `p`, as `Path::parent` gives it: trailing
/// separators and trailing `.` components of `p` are passed over, and so are
/// those that end the directory.
pub open spec fn parent(p: Seq<char>) -> Option<Seq<char>> {
    let t = trim_tail(p);
    if t.len() == 0 {
        None
    } else {
        match last_index_of(t, '/') {
            None => Some(Seq::empty()),
            Some(k) => if k == 0 {
                Some(seq!['/'])
            } else {
                Some(dir_form(t.subrange(0, k)))
            },
        }
    }
}

/// The first `k` characters of `p`.
fn prefix_chars(p: &Vec<char>, k: usize) -> (r: Vec<char>)
    requires
        k <= p.len(),
    ensures
        r@ == p@.subrange(0, k as int),
{
    let mut v: Vec<char> = Vec::new();
    let mut i: usize = 0;
    while i < k
        invariant
            i <= k <= p.len(),
            v@ == p@.subrange(0, i as int),
        decreases k - i,
    {
        v.push(p[i]);
        i = i + 1;
        assert(v@ =~= p@.subrange(0, i as int));
    }
    v
}

/// The root directory `/`.
fn root_chars() -> (r: Vec<char>)
    ensures
        r@ == seq!['/'],
{
    let mut v: Vec<char> = Vec::new();
    v.push('/');
    assert(v@ =~= seq!['/']);
    v
}

/// The plain form of the directory path `p`, on characters.
pub fn dir_form_chars(p: &Vec<char>) -> (r: Vec<char>)
    ensures
        r@ == dir_form(p@),
{
    let t = trim_tail_chars(p);
    if t.len() == 0 && p.len() > 0 && p[0] == '/' {
        root_chars()
    } else {
        t
    }
}

/// The directory that contains `p`.
pub fn parent_chars(p: &Vec<char>) -> (r: Option<Vec<char>>)
    ensures
        match r {
            Some(v) => parent(p@) == Some(v@),
            None => parent(p@) is None,
        },
{
    let t = trim_tail_chars(p);
    if t.len() == 0 {
        return None;
    }
    match rfind_char(&t, '/') {
        None => Some(Vec::new()),
        Some(k) => {
            if k == 0 {
                Some(root_chars())
            } else {
                let q = prefix_chars(&t, k);
                Some(dir_form_chars(&q))
            }
        },
    }
}

/// The extension of `p`'s last component, as `Path::extension` gives it.
pub open spec fn extension(p: Seq<char>) -> Option<Seq<char>> {
    match file_name(p) {
        None => None,
        Some(n) => match last_index_of(n, '.') {
            None => None,
            Some(k) => if k == 0 {
                None
            } else {
                Some(n.subrange(k + 1, n.len() as int))
            },
        },
    }
}

/// The extension of `p`'s last component.
pub fn extension_chars(p: &Vec<char>) -> (r: Option<Vec<char>>)
    ensures
        match r {
            Some(v) => extension(p@) == Some(v@),
            None => extension(p@) is None,
        },
{
    match file_name_chars(p) {
        None => None,
        Some(n) => match rfind_char(&n, '.') {
            None => None,
            Some(k) => {
                if k == 0 {
                    None
                } else {
                    let mut v: Vec<char> = Vec::new();
                    let mut i = k + 1;
                    while i < n.len()
                        invariant
                            k + 1 <= i <= n.len(),
                            v@ == n@.subrange(k + 1, i as int),
                        decreases n.len() - i,
                    {
                        v.push(n[i]);
                        i = i + 1;
                        assert(v@ =~= n@.subrange(k + 1, i as int));
                    }
                    Some(v)
                }
            },
        },
    }
}

/// `p` relative to `root`, as `Path::strip_prefix` gives it; `p` itself when
/// `p` does not lie at or below `root`.
pub open spec fn relative_to(p: Seq<char>, root: Seq<char>) -> Seq<char> {
    if p == root {
        Seq::empty()
    } else if root.len() > 0 && root.last() == '/' && p.len() > root.len() && p.subrange(
        0,
        root.len() as int,
    ) == root {
        p.subrange(root.len() as int, p.len() as int)
    } else if is_under(p, root) {
        p.subrange(root.len() as int + 1, p.len() as int)
    } else {
        p
    }
}

/// Computes `relative_to`.
pub fn relative_to_chars(p: &Vec<char>, root: &Vec<char>) -> (r: Vec<char>)
    ensures
        r@ == relative_to(p@, root@),
{
    if same_chars(p, root) {
        return Vec::new();
    }
    let from: usize = if root.len() > 0 && root[root.len() - 1] == '/' && p.len() > root.len()
        && starts_with_chars(p, root) {
        root.len()
    } else if is_under_chars(p, root) {
        root.len() + 1
    } else {
        0
    };
    let mut v: Vec<char> = Vec::new();
    let mut i = from;
    while i < p.len()
        invariant
            from <= i <= p.len(),
            v@ == p@.subrange(from as int, i as int),
        decreases p.len() - i,
    {
        v.push(p[i]);
        i = i + 1;
        assert(v@ =~= p@.subrange(from as int, i as int));
    }
    assert(from == 0 ==> p@.subrange(0, p.len() as int) =~= p@);
    v
}

/// `rel` appended to `base` with a separator, as `Path::join` gives it.
pub open spec fn join(base: Seq<char>, rel: Seq<char>) -> Seq<char> {
    if rel.len() > 0 && rel[0] == '/' {
        rel
    } else if base.len() == 0 {
        rel
    } else if base.last() == '/' {
        base + rel
    } else {
        base + seq!['/'] + rel
    }
}

/// Trimming never makes a path longer.
proof fn lemma_trim_tail_len(p: Seq<char>)
    ensures
        trim_tail(p).len() <= p.len(),
    decreases p.len(),
{
    reveal(trim_tail);
    if p.len() > 0 && (p.last() == '/' || (p.len() >= 2 && p.last() == '.' && p[p.len() - 2] == '/')) {
        lemma_trim_tail_len(p.drop_last());
    }
}

/// Going back out of a directory entered by its name leads to where one
/// came from: the parent of `d` joined with a name `name` (one component,
/// not `.`) is `d` itself, for a directory path `d` in plain form.
pub proof fn lemma_parent_of_join(d: Seq<char>, name: Seq<char>)
    requires
        d.len() > 0,
        dir_form(d) == d,
        name.len() > 0,
        !name.contains('/'),
        name != seq!['.'],
    ensures
        parent(join(d, name)) == Some(d),
{
    let p = join(d, name);
    if d != seq!['/'] {
        assert(trim_tail(d) == d) by {
            if trim_tail(d).len() == 0 && d[0] == '/' {
                assert(dir_form(d) == seq!['/']);
            }
        }
        assert(d.last() != '/') by {
            if d.last() == '/' {
                reveal(trim_tail);
                lemma_trim_tail_len(d.drop_last());
            }
        }
    }
    let k: int = if d == seq!['/'] {
        0
    } else {
        d.len() as int
    };
    if d == seq!['/'] {
        assert(p =~= d + name);
    } else {
        assert(p =~= d + seq!['/'] + name);
    }
    assert(p[k] == '/');
    assert forall|j: int| k < j < p.len() implies p[j] != '/' by {
        assert(p[j] == name[j - k - 1]);
    }
    assert(trim_tail(p) == p) by {
        reveal(trim_tail);
        assert(p.last() == name.last());
        assert(name.last() != '/') by {
            assert(name[name.len() - 1] == name.last());
        }
        if p.len() >= 2 && p.last() == '.' && p[p.len() - 2] == '/' {
            if name.len() >= 2 {
                assert(p[p.len() - 2] == name[name.len() - 2]);
            } else {
                assert(name =~= seq!['.']);
            }
        }
    }
    assert(exists|i: int| 0 <= i < p.len() && p[i] == '/');
    let i = choose|i: int| 0 <= i < p.len() && p[i] == '/' && forall|j: int| i < j < p.len() ==> p[j] != '/';
    assert(0 <= k < p.len() && p[k] == '/' && forall|j: int| k < j < p.len() ==> p[j] != '/');
    assert(i == k);
    assert(last_index_of(p, '/') == Some(k));
    if k > 0 {
        assert(p.subrange(0, k) =~= d);
    }
}

/// Computes `join` on characters.
pub fn join_chars(b: &Vec<char>, n: &Vec<char>) -> (r: Vec<char>)
    ensures
        r@ == join(b@, n@),
{
    if n.len() > 0 && n[0] == '/' {
        return n.clone();
    }
    if b.len() == 0 {
        return n.clone();
    }
    let mut out = b.clone();
    assert(out@ == b@);
    if b[b.len() - 1] != '/' {
        out.push('/');
    }
    push_chars(&mut out, n);
    out
}

/// Computes `join`.
pub fn join_path(base: &str, rel: &str) -> (r: String)
    ensures
        r@ == join(base@, rel@),
{
    let b = chars_of(base);
    let n = chars_of(rel);
    let out = join_chars(&b, &n);
    string_of(&out)
}

} // verus!
