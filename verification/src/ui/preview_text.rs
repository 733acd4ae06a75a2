use vstd::prelude::*;
use crate::text::{
    chars_of, contains_chars, contains_seq, find_from, lines, lowercase, occurs_at, push_str,
    split_lines, string_of, to_lowercase,
};

verus! {

/// Whether `b` is a control byte other than tab, line feed and carriage return.
pub open spec fn is_control_byte(b: u8) -> bool {
    b < 32 && b != 9 && b != 10 && b != 13
}

/// The number of such control bytes in `s`.
pub open spec fn control_count(s: Seq<u8>) -> nat
    decreases s.len(),
{
    if s.len() == 0 {
        0
    } else {
        control_count(s.drop_last()) + if is_control_byte(s.last()) {
            1nat
        } else {
            0nat
        }
    }
}

/// Whether the first bytes of a file look binary: a zero byte, or more than
/// five percent control bytes.
pub open spec fn looks_binary(s: Seq<u8>) -> bool {
    s.len() > 0 && (s.contains(0u8) || control_count(s) * 100 / s.len() > 5)
}

/// Whether the first bytes `head` of a file (as one read gives them) look
/// binary; an empty read does not.
pub fn is_binary_content(head: &[u8]) -> (r: bool)
    ensures
        r == looks_binary(head@),
{
    let n = head.len();
    if n == 0 {
        return false;
    }
    let mut i: usize = 0;
    let mut count: usize = 0;
    let mut zero = false;
    while i < n
        invariant
            i <= n,
            n == head@.len(),
            count == control_count(head@.subrange(0, i as int)),
            count <= i,
            zero == head@.subrange(0, i as int).contains(0u8),
        decreases n - i,
    {
        assert(head@.subrange(0, i + 1).drop_last() =~= head@.subrange(0, i as int));
        let b = head[i];
        if b == 0 {
            zero = true;
            assert(head@.subrange(0, i + 1)[i as int] == 0u8);
        } else {
            assert(head@.subrange(0, i as int).contains(0u8) == head@.subrange(0, i + 1).contains(
                0u8,
            )) by {
                if head@.subrange(0, i + 1).contains(0u8) {
                    let k = choose|k: int| 0 <= k < i + 1 && #[trigger] head@.subrange(0, i + 1)[k] == 0u8;
                    assert(head@.subrange(0, i as int)[k] == 0u8);
                }
                if head@.subrange(0, i as int).contains(0u8) {
                    let k = choose|k: int| 0 <= k < i && #[trigger] head@.subrange(0, i as int)[k] == 0u8;
                    assert(head@.subrange(0, i + 1)[k] == 0u8);
                }
            }
        }
        if b < 32 && b != 9 && b != 10 && b != 13 {
            count = count + 1;
        }
        i = i + 1;
    }
    assert(head@.subrange(0, n as int) =~= head@);
    if zero {
        return true;
    }
    let scaled: u128 = (count as u128) * 100;
    scaled / (n as u128) > 5
}

/// The first line (by index) whose lower-cased text contains the non-empty
/// lower-cased query `q`.
pub open spec fn first_match(ls: Seq<Seq<char>>, q: Seq<char>) -> Option<nat>
    decreases ls.len(),
{
    if ls.len() == 0 {
        None
    } else {
        match first_match(ls.drop_last(), q) {
            Some(i) => Some(i),
            None => if q.len() > 0 && contains_seq(lowercase(ls.last()), q) {
                Some((ls.len() - 1) as nat)
            } else {
                None
            },
        }
    }
}

/// Where a file's text matches `query` (its first matching line, or 0) and
/// how many lines it has.
pub open spec fn match_line_and_total_spec(content: Seq<char>, query: Seq<char>) -> (nat, nat) {
    let ls = lines(content);
    (
        match first_match(ls, lowercase(query)) {
            Some(i) => i,
            None => 0,
        },
        ls.len(),
    )
}

/// Finds the first line of `content` that contains `query` (ignoring case)
/// and counts the lines.
pub fn match_line_and_total(content: &str, query: &str) -> (r: (usize, usize))
    ensures
        (r.0 as nat, r.1 as nat) == match_line_and_total_spec(content@, query@),
{
    let ls = split_lines(&chars_of(content));
    let q = chars_of(to_lowercase(query).as_str());
    let ghost lv = ls@.map_values(|l: Vec<char>| l@);
    assert(lv == lines(content@));
    let mut found: Option<usize> = None;
    let mut i: usize = 0;
    while i < ls.len()
        invariant
            i <= ls.len(),
            lv == ls@.map_values(|l: Vec<char>| l@),
            q@ == lowercase(query@),
            match found {
                Some(k) => first_match(lv.subrange(0, i as int), q@) == Some(k as nat),
                None => first_match(lv.subrange(0, i as int), q@) is None,
            },
        decreases ls.len() - i,
    {
        assert(lv.subrange(0, i + 1).drop_last() =~= lv.subrange(0, i as int));
        if found.is_none() && q.len() > 0 {
            let low = chars_of(to_lowercase(string_of(&ls[i]).as_str()).as_str());
            if contains_chars(&low, &q) {
                found = Some(i);
            }
        }
        i = i + 1;
    }
    assert(lv.subrange(0, ls.len() as int) =~= lv);
    match found {
        Some(k) => (k, ls.len()),
        None => (0, ls.len()),
    }
}

/// The lines (1-based, inclusive) shown around line `m` (0-based) of a
/// file of `total` lines: from fifteen lines before it, a hundred at most.
pub open spec fn preview_window_spec(m: nat, total: nat) -> (nat, nat) {
    let s0: nat = if m >= 15 {
        (m - 15) as nat
    } else {
        0
    };
    let end: nat = if s0 + 100 < total {
        s0 + 100
    } else {
        total
    };
    let back: nat = if end >= 100 {
        (end - 100) as nat
    } else {
        0
    };
    let start: nat = if back < s0 {
        back
    } else {
        s0
    };
    (
        start + 1,
        if end > 1 {
            end
        } else {
            1
        },
    )
}

/// Which lines of the file to show around the match line.
pub fn preview_window(match_line: usize, total: usize) -> (r: (usize, usize))
    requires
        match_line + 100 <= usize::MAX,
    ensures
        (r.0 as nat, r.1 as nat) == preview_window_spec(match_line as nat, total as nat),
        match_line < total ==> r.0 <= match_line + 1 <= r.1,
        r.1 + 1 - r.0 <= 100,
{
    let start = if match_line >= 15 {
        match_line - 15
    } else {
        0
    };
    let end = if start + 100 < total {
        start + 100
    } else {
        total
    };
    let back = if end >= 100 {
        end - 100
    } else {
        0
    };
    let start = if back < start {
        back
    } else {
        start
    };
    let end_line = if end > 1 {
        end
    } else {
        1
    };
    (start + 1, end_line)
}

/// Unicode control characters (general category Cc).
pub open spec fn is_control(c: char) -> bool {
    let u = c as u32;
    u <= 0x1f || (0x7f <= u && u <= 0x9f)
}

/// A line made safe to draw: tabs become four spaces, other control
/// characters a space.
pub open spec fn sanitized(s: Seq<char>) -> Seq<char>
    decreases s.len(),
{
    if s.len() == 0 {
        Seq::empty()
    } else {
        let rest = sanitized(s.drop_last());
        if s.last() == '\t' {
            rest + "    "@
        } else if is_control(s.last()) {
            rest.push(' ')
        } else {
            rest.push(s.last())
        }
    }
}

/// Replaces tabs by four spaces and other control characters by a space.
pub fn sanitize_line(line: &str) -> (r: String)
    ensures
        r@ == sanitized(line@),
{
    let cs = chars_of(line);
    let mut out: Vec<char> = Vec::new();
    let mut i: usize = 0;
    while i < cs.len()
        invariant
            i <= cs.len(),
            cs@ == line@,
            out@ == sanitized(cs@.subrange(0, i as int)),
        decreases cs.len() - i,
    {
        assert(cs@.subrange(0, i + 1).drop_last() =~= cs@.subrange(0, i as int));
        let c = cs[i];
        let u = c as u32;
        if c == '\t' {
            push_str(&mut out, "    ");
        } else if u <= 0x1f || (0x7f <= u && u <= 0x9f) {
            out.push(' ');
        } else {
            out.push(c);
        }
        i = i + 1;
    }
    assert(cs@.subrange(0, cs.len() as int) =~= cs@);
    string_of(&out)
}

/// The first position at or after `from` where `needle` occurs in `hay`.
pub open spec fn first_occurrence(hay: Seq<char>, needle: Seq<char>, from: int) -> Option<int> {
    if exists|i: int| from <= i && #[trigger] occurs_at(hay, needle, i) {
        Some(
            choose|i: int|
                from <= i && #[trigger] occurs_at(hay, needle, i) && forall|k: int|
                    from <= k < i ==> !#[trigger] occurs_at(hay, needle, k),
        )
    } else {
        None
    }
}

#[verifier::opaque]
/// The pieces of `text` from `from` on, with the occurrences of `q` in its
/// lower-cased form `low` marked: plain text, then a marked match, and so on.
pub open spec fn segments_from(text: Seq<char>, low: Seq<char>, q: Seq<char>, from: int) -> Seq<
    (Seq<char>, bool),
>
    decreases text.len() - from,
{
    if from > text.len() || q.len() == 0 {
        Seq::empty()
    } else {
        match first_occurrence(low, q, from) {
            None => if from < text.len() {
                seq![(text.subrange(from, text.len() as int), false)]
            } else {
                Seq::empty()
            },
            Some(i) => {
                let next = i + q.len();
                if next <= from || next > text.len() || i < from {
                    Seq::empty()
                } else {
                    let head = if i > from {
                        seq![(text.subrange(from, i), false)]
                    } else {
                        Seq::empty()
                    };
                    head + seq![(text.subrange(i, next), true)] + segments_from(text, low, q, next)
                }
            },
        }
    }
}

/// `text` cut into plain and highlighted pieces, the highlighted ones being
/// the places where `query` occurs regardless of case. Without a query, or
/// when lower-casing changes the length of the text or of the query, the
/// whole text is one plain piece.
pub open spec fn highlight_spec(text: Seq<char>, query: Seq<char>) -> Seq<(Seq<char>, bool)> {
    let low = lowercase(text);
    let q = lowercase(query);
    if query.len() == 0 || low.len() != text.len() || q.len() != query.len() {
        seq![(text, false)]
    } else {
        segments_from(text, low, q, 0)
    }
}

/// The text that the pieces `p` spell out together.
pub open spec fn joined(p: Seq<(Seq<char>, bool)>) -> Seq<char>
    decreases p.len(),
{
    if p.len() == 0 {
        Seq::empty()
    } else {
        p[0].0 + joined(p.drop_first())
    }
}

proof fn lemma_joined_append(a: Seq<(Seq<char>, bool)>, b: Seq<(Seq<char>, bool)>)
    ensures
        joined(a + b) == joined(a) + joined(b),
    decreases a.len(),
{
    if a.len() == 0 {
        assert(a + b =~= b);
    } else {
        assert((a + b).drop_first() =~= a.drop_first() + b);
        lemma_joined_append(a.drop_first(), b);
    }
}

proof fn lemma_joined_one(x: (Seq<char>, bool))
    ensures
        joined(seq![x]) == x.0,
{
    reveal_with_fuel(joined, 2);
    assert(seq![x].drop_first() =~= Seq::<(Seq<char>, bool)>::empty());
    assert(x.0 + Seq::<char>::empty() =~= x.0);
}

proof fn lemma_min_occurrence(hay: Seq<char>, needle: Seq<char>, from: int, i: int) -> (j: int)
    requires
        from <= i,
        occurs_at(hay, needle, i),
    ensures
        from <= j <= i,
        occurs_at(hay, needle, j),
        forall|k: int| from <= k < j ==> !#[trigger] occurs_at(hay, needle, k),
    decreases i - from,
{
    if exists|k: int| from <= k < i && #[trigger] occurs_at(hay, needle, k) {
        let k = choose|k: int| from <= k < i && #[trigger] occurs_at(hay, needle, k);
        lemma_min_occurrence(hay, needle, from, k)
    } else {
        i
    }
}

proof fn lemma_segments_join(text: Seq<char>, low: Seq<char>, q: Seq<char>, from: int)
    requires
        0 <= from <= text.len(),
        low.len() == text.len(),
        q.len() > 0,
    ensures
        joined(segments_from(text, low, q, from)) == text.subrange(from, text.len() as int),
    decreases text.len() - from,
{
    if exists|i: int| from <= i && #[trigger] occurs_at(low, q, i) {
        let i0 = choose|i: int| from <= i && #[trigger] occurs_at(low, q, i);
        let i = lemma_min_occurrence(low, q, from, i0);
        lemma_segments_hit(text, low, q, from, i);
        let next = i + q.len();
        lemma_segments_join(text, low, q, next);
        let head: Seq<(Seq<char>, bool)> = if i > from {
            seq![(text.subrange(from, i), false)]
        } else {
            Seq::empty()
        };
        let hit = seq![(text.subrange(i, next), true)];
        let rest = segments_from(text, low, q, next);
        lemma_joined_append(head + hit, rest);
        lemma_joined_append(head, hit);
        lemma_joined_one((text.subrange(i, next), true));
        if i > from {
            lemma_joined_one((text.subrange(from, i), false));
        } else {
            assert(joined(head) == Seq::<char>::empty());
            assert(text.subrange(from, i) =~= Seq::<char>::empty());
        }
        assert(text.subrange(from, i) + text.subrange(i, next) + text.subrange(next, text.len() as int)
            =~= text.subrange(from, text.len() as int));
    } else {
        lemma_segments_miss(text, low, q, from);
        if from < text.len() {
            lemma_joined_one((text.subrange(from, text.len() as int), false));
        } else {
            assert(text.subrange(from, text.len() as int) =~= Seq::<char>::empty());
        }
    }
}

/// Highlighting never changes the text: the pieces put together give it back.
pub proof fn lemma_highlight_keeps_text(text: Seq<char>, query: Seq<char>)
    ensures
        joined(highlight_spec(text, query)) == text,
{
    let low = lowercase(text);
    let q = lowercase(query);
    if query.len() == 0 || low.len() != text.len() || q.len() != query.len() {
        lemma_joined_one((text, false));
    } else {
        lemma_segments_join(text, low, q, 0);
        assert(text.subrange(0, text.len() as int) =~= text);
    }
}

/// The texts of highlighted pieces.
pub open spec fn pieces_view(v: Seq<(String, bool)>) -> Seq<(Seq<char>, bool)> {
    v.map_values(|p: (String, bool)| (p.0@, p.1))
}

fn slice_string(cs: &Vec<char>, from: usize, to: usize) -> (r: String)
    requires
        from <= to <= cs.len(),
    ensures
        r@ == cs@.subrange(from as int, to as int),
{
    let mut out: Vec<char> = Vec::new();
    let mut k = from;
    while k < to
        invariant
            from <= k <= to,
            to <= cs.len(),
            out@ == cs@.subrange(from as int, k as int),
        decreases to - k,
    {
        out.push(cs[k]);
        k = k + 1;
        assert(out@ =~= cs@.subrange(from as int, k as int));
    }
    string_of(&out)
}

proof fn lemma_first_occurrence(hay: Seq<char>, needle: Seq<char>, from: int, i: int)
    requires
        from <= i,
        occurs_at(hay, needle, i),
        forall|k: int| from <= k < i ==> !#[trigger] occurs_at(hay, needle, k),
    ensures
        first_occurrence(hay, needle, from) == Some(i),
{
    let j = choose|j: int|
        from <= j && #[trigger] occurs_at(hay, needle, j) && forall|k: int|
            from <= k < j ==> !#[trigger] occurs_at(hay, needle, k);
    if j < i {
        assert(!occurs_at(hay, needle, j));
    }
    if j > i {
        assert(!occurs_at(hay, needle, i));
    }
}

proof fn lemma_segments_hit(text: Seq<char>, low: Seq<char>, q: Seq<char>, from: int, i: int)
    requires
        0 <= from <= i,
        from <= text.len(),
        q.len() > 0,
        low.len() == text.len(),
        occurs_at(low, q, i),
        forall|k: int| from <= k < i ==> !#[trigger] occurs_at(low, q, k),
    ensures
        segments_from(text, low, q, from) == (if i > from {
            seq![(text.subrange(from, i), false)]
        } else {
            Seq::empty()
        }) + seq![(text.subrange(i, i + q.len()), true)] + segments_from(
            text,
            low,
            q,
            i + q.len(),
        ),
{
    lemma_first_occurrence(low, q, from, i);
    reveal_with_fuel(segments_from, 1);
}

proof fn lemma_segments_miss(text: Seq<char>, low: Seq<char>, q: Seq<char>, from: int)
    requires
        0 <= from <= text.len(),
        q.len() > 0,
        forall|k: int| from <= k ==> !#[trigger] occurs_at(low, q, k),
    ensures
        segments_from(text, low, q, from) == if from < text.len() {
            seq![(text.subrange(from, text.len() as int), false)]
        } else {
            Seq::empty()
        },
{
    assert(first_occurrence(low, q, from) is None) by {
        if exists|i: int| from <= i && #[trigger] occurs_at(low, q, i) {
            let i = choose|i: int| from <= i && #[trigger] occurs_at(low, q, i);
            assert(!occurs_at(low, q, i));
        }
    }
    reveal_with_fuel(segments_from, 1);
}

fn highlight_step(t: &Vec<char>, low: &Vec<char>, q: &Vec<char>, from: usize, out: &mut Vec<(String, bool)>) -> (next: usize)
    requires
        q.len() > 0,
        low.len() == t.len(),
        from < t.len(),
    ensures
        from < next <= t.len(),
        pieces_view(final(out)@) + segments_from(t@, low@, q@, next as int) == pieces_view(old(out)@)
            + segments_from(t@, low@, q@, from as int),
{
    let m = q.len();
        let ghost before = out@;
        match find_from(&low, &q, from) {
            None => {
                proof {
                    lemma_segments_miss(t@, low@, q@, from as int);
                }
                if from < t.len() {
                    let rest = slice_string(&t, from, t.len());
                    out.push((rest, false));
                    assert(pieces_view(out@) =~= pieces_view(before) + seq![
                        (t@.subrange(from as int, t.len() as int), false),
                    ]);
                } else {
                    assert(pieces_view(out@) =~= pieces_view(before) + Seq::empty());
                }
                proof {
                    lemma_segments_miss(t@, low@, q@, t.len() as int);
                    assert(pieces_view(out@) + segments_from(t@, low@, q@, t.len() as int) =~= pieces_view(out@));
                }
                t.len()
            },
            Some(i) => {
                proof {
                    lemma_segments_hit(t@, low@, q@, from as int, i as int);
                }
                let next = i + m;
                if i > from {
                    let head = slice_string(&t, from, i);
                    out.push((head, false));
                }
                let hit = slice_string(&t, i, next);
                out.push((hit, true));
                proof {
                    let head = if i > from {
                        seq![(t@.subrange(from as int, i as int), false)]
                    } else {
                        Seq::empty()
                    };
                    let hit = seq![(t@.subrange(i as int, next as int), true)];
                    let rest = segments_from(t@, low@, q@, next as int);
                    assert(pieces_view(out@) =~= pieces_view(before) + head + hit);
                    assert(pieces_view(out@) + rest =~= pieces_view(before) + (head + hit + rest));
                }
                next
            },
        }
}

/// Cuts `text` into plain and highlighted pieces where `query` occurs,
/// ignoring case.
pub fn highlight_segments(text: &str, query: &str) -> (r: Vec<(String, bool)>)
    ensures
        pieces_view(r@) == highlight_spec(text@, query@),
{
    let t = chars_of(text);
    let qc = chars_of(query);
    let low = chars_of(to_lowercase(text).as_str());
    let q = chars_of(to_lowercase(query).as_str());
    let mut out: Vec<(String, bool)> = Vec::new();
    if qc.len() == 0 || low.len() != t.len() || q.len() != qc.len() {
        out.push((String::from_str(text), false));
        assert(pieces_view(out@) =~= seq![(text@, false)]);
        return out;
    }
    let mut from: usize = 0;
    while from < t.len()
        invariant
            q.len() > 0,
            low.len() == t.len(),
            t@ == text@,
            low@ == lowercase(text@),
            q@ == lowercase(query@),
            from <= t.len(),
            pieces_view(out@) + segments_from(t@, low@, q@, from as int) == segments_from(
                t@,
                low@,
                q@,
                0,
            ),
        decreases t.len() - from,
    {
        from = highlight_step(&t, &low, &q, from, &mut out);
    }
    proof {
        lemma_segments_miss(t@, low@, q@, from as int);
        assert(pieces_view(out@) =~= pieces_view(out@) + segments_from(t@, low@, q@, from as int));
    }
    out
}

} // verus!
