use vstd::prelude::*;
use crate::text::{
    chars_of, lowercase, push_chars, push_str, same_chars, starts_with_chars, string_of,
    to_lowercase, trim, trim_chars,
};

verus! {

/// A key of the keyboard, as the event loop tells them apart.
#[derive(Debug, Clone, Copy, PartialEq, Eq, Structural)]
pub enum Key {
    Char(char),
    Enter,
    Esc,
    Backspace,
    Delete,
    Left,
    Right,
    Up,
    Down,
    Tab,
    BackTab,
    Insert,
    Other,
}

/// A key press with the Control and Alt modifiers.
#[derive(Debug, Clone, Copy, PartialEq, Eq, Structural)]
pub struct KeyPress {
    pub code: Key,
    pub ctrl: bool,
    pub alt: bool,
}

/// How a character key with modifiers is written in key bindings:
/// `ctrl-x`, `alt-x` or just `x`.
pub open spec fn key_label_spec(c: char, ctrl: bool, alt: bool) -> Seq<char> {
    if ctrl {
        "ctrl-"@.push(c)
    } else if alt {
        "alt-"@.push(c)
    } else {
        seq![c]
    }
}

/// Writes a character key with its modifiers as key bindings do.
pub fn key_label(c: char, ctrl: bool, alt: bool) -> (r: String)
    ensures
        r@ == key_label_spec(c, ctrl, alt),
{
    let mut out: Vec<char> = Vec::new();
    if ctrl {
        push_str(&mut out, "ctrl-");
    } else if alt {
        push_str(&mut out, "alt-");
    }
    out.push(c);
    string_of(&out)
}

/// A key sequence as bindings are compared: trimmed and lower-cased.
pub open spec fn normalized(s: Seq<char>) -> Seq<char> {
    lowercase(trim(s))
}

/// Whether `a` begins with `p`.
pub open spec fn begins_with(a: Seq<char>, p: Seq<char>) -> bool {
    p.len() <= a.len() && a.subrange(0, p.len() as int) == p
}

/// Which binding a sequence completes.
#[derive(Debug, Clone, Copy, PartialEq, Eq, Structural)]
pub enum BindingHit {
    /// A binding declared in a plugin manifest, by position.
    Declared(usize),
    /// A binding registered at run time, by position.
    Registered(usize),
}

/// The last position in `ks` whose normalized key equals `n`.
pub open spec fn last_equal(ks: Seq<Seq<char>>, n: Seq<char>) -> Option<nat>
    decreases ks.len(),
{
    if ks.len() == 0 {
        None
    } else if normalized(ks.last()) == n {
        Some((ks.len() - 1) as nat)
    } else {
        last_equal(ks.drop_last(), n)
    }
}

/// Whether some key in `ks` (not equal to `n`) begins with the sequence `n`.
pub open spec fn any_prefixed(ks: Seq<Seq<char>>, n: Seq<char>) -> bool {
    exists|k: int|
        0 <= k < ks.len() && normalized(#[trigger] ks[k]) != n && (begins_with(
            normalized(ks[k]),
            n + " "@,
        ) || begins_with(normalized(ks[k]), n))
}

/// The binding a typed sequence completes (a registered one wins over a
/// declared one, a later one over an earlier one), and whether it could
/// still grow into a longer binding.
pub open spec fn sequence_match(
    declared: Seq<Seq<char>>,
    registered: Seq<Seq<char>>,
    proposed: Seq<char>,
) -> (Option<BindingHit>, bool) {
    let n = normalized(proposed);
    let hit = match last_equal(registered, n) {
        Some(j) => Some(BindingHit::Registered(j as usize)),
        None => match last_equal(declared, n) {
            Some(i) => Some(BindingHit::Declared(i as usize)),
            None => None,
        },
    };
    (hit, any_prefixed(declared, n) || any_prefixed(registered, n))
}

/// What a typed character key does to the plugin key bindings.
#[derive(Debug, Clone, Copy, PartialEq, Eq, Structural)]
pub enum KeyResolution {
    /// The sequence completes this binding: run it.
    Fire(BindingHit),
    /// The sequence may still complete a binding: wait for more keys.
    Wait,
    /// No binding wants the key.
    Pass,
}

/// How a typed key resolves against the bindings, given the pending sequence:
/// the pending sequence extended by the key is tried first, then the key alone.
/// Returns the resolution and the new pending sequence.
pub open spec fn resolve_spec(
    pending: Seq<char>,
    key: Seq<char>,
    declared: Seq<Seq<char>>,
    registered: Seq<Seq<char>>,
) -> (KeyResolution, Seq<char>) {
    let proposed = if pending.len() == 0 {
        key
    } else {
        pending + " "@ + key
    };
    let m = sequence_match(declared, registered, proposed);
    if m.0 is Some {
        (KeyResolution::Fire(m.0.unwrap()), Seq::empty())
    } else if m.1 {
        (KeyResolution::Wait, proposed)
    } else {
        let f = sequence_match(declared, registered, key);
        if f.0 is Some {
            (KeyResolution::Fire(f.0.unwrap()), Seq::empty())
        } else if f.1 {
            (KeyResolution::Wait, key)
        } else {
            (KeyResolution::Pass, Seq::empty())
        }
    }
}

fn normalize(s: &str) -> (r: Vec<char>)
    ensures
        r@ == normalized(s@),
{
    let t = trim_chars(&chars_of(s));
    chars_of(to_lowercase(string_of(&t).as_str()).as_str())
}

fn scan_keys(ks: &Vec<String>, n: &Vec<char>) -> (r: (Option<usize>, bool))
    ensures
        match r.0 {
            Some(j) => last_equal(ks@.map_values(|s: String| s@), n@) == Some(j as nat),
            None => last_equal(ks@.map_values(|s: String| s@), n@) is None,
        },
        r.1 == any_prefixed(ks@.map_values(|s: String| s@), n@),
{
    let ghost kv = ks@.map_values(|s: String| s@);
    let mut spaced = n.clone();
    spaced.push(' ');
    assert(spaced@ =~= n@ + " "@) by {
        reveal_strlit(" ");
    }
    let mut hit: Option<usize> = None;
    let mut prefix = false;
    let mut i: usize = 0;
    while i < ks.len()
        invariant
            i <= ks.len(),
            kv == ks@.map_values(|s: String| s@),
            spaced@ == n@ + " "@,
            match hit {
                Some(j) => last_equal(kv.subrange(0, i as int), n@) == Some(j as nat),
                None => last_equal(kv.subrange(0, i as int), n@) is None,
            },
            prefix == any_prefixed(kv.subrange(0, i as int), n@),
        decreases ks.len() - i,
    {
        let ghost pre = kv.subrange(0, i as int);
        let ghost next = kv.subrange(0, i + 1);
        assert(next.drop_last() =~= pre);
        assert(next.last() == kv[i as int]);
        let k = normalize(ks[i].as_str());
        if same_chars(&k, n) {
            hit = Some(i);
        } else if starts_with_chars(&k, &spaced) || starts_with_chars(&k, n) {
            prefix = true;
        }
        proof {
            assert(any_prefixed(next, n@) == (any_prefixed(pre, n@) || (normalized(kv[i as int])
                != n@ && (begins_with(normalized(kv[i as int]), n@ + " "@) || begins_with(
                normalized(kv[i as int]),
                n@,
            ))))) by {
                if any_prefixed(next, n@) {
                    let k = choose|k: int|
                        0 <= k < next.len() && normalized(#[trigger] next[k]) != n@ && (begins_with(
                            normalized(next[k]),
                            n@ + " "@,
                        ) || begins_with(normalized(next[k]), n@));
                    if k < i {
                        assert(pre[k] == next[k]);
                    }
                }
                if any_prefixed(pre, n@) {
                    let k = choose|k: int|
                        0 <= k < pre.len() && normalized(#[trigger] pre[k]) != n@ && (begins_with(
                            normalized(pre[k]),
                            n@ + " "@,
                        ) || begins_with(normalized(pre[k]), n@));
                    assert(next[k] == pre[k]);
                }
            }
        }
        i = i + 1;
    }
    assert(kv.subrange(0, ks.len() as int) =~= kv);
    (hit, prefix)
}

fn match_sequence(declared: &Vec<String>, registered: &Vec<String>, proposed: &str) -> (r: (
    Option<BindingHit>,
    bool,
))
    ensures
        r == sequence_match(
            declared@.map_values(|s: String| s@),
            registered@.map_values(|s: String| s@),
            proposed@,
        ),
{
    let n = normalize(proposed);
    let (d_hit, d_prefix) = scan_keys(declared, &n);
    let (r_hit, r_prefix) = scan_keys(registered, &n);
    let hit = match r_hit {
        Some(j) => Some(BindingHit::Registered(j)),
        None => match d_hit {
            Some(i) => Some(BindingHit::Declared(i)),
            None => None,
        },
    };
    (hit, d_prefix || r_prefix)
}

/// Resolves a typed key (written as `key_label` writes it) against the
/// declared and registered plugin bindings, given the pending sequence.
pub fn resolve_plugin_key(
    pending: &str,
    key: &str,
    declared: &Vec<String>,
    registered: &Vec<String>,
) -> (r: (KeyResolution, String))
    ensures
        (r.0, r.1@) == resolve_spec(
            pending@,
            key@,
            declared@.map_values(|s: String| s@),
            registered@.map_values(|s: String| s@),
        ),
{
    let mut p: Vec<char> = chars_of(pending);
    let proposed = if p.len() == 0 {
        String::from_str(key)
    } else {
        push_str(&mut p, " ");
        push_str(&mut p, key);
        string_of(&p)
    };
    let m = match_sequence(declared, registered, proposed.as_str());
    match m.0 {
        Some(hit) => {
            return (KeyResolution::Fire(hit), String::new());
        },
        None => {},
    }
    if m.1 {
        return (KeyResolution::Wait, proposed);
    }
    let f = match_sequence(declared, registered, key);
    match f.0 {
        Some(hit) => (KeyResolution::Fire(hit), String::new()),
        None => {
            if f.1 {
                (KeyResolution::Wait, String::from_str(key))
            } else {
                (KeyResolution::Pass, String::new())
            }
        },
    }
}

} // verus!

verus! {

/// `s` with `c` inserted before position `k`, or appended when `k` is past the end.
pub open spec fn inserted(s: Seq<char>, k: nat, c: char) -> Seq<char> {
    if k < s.len() {
        s.insert(k as int, c)
    } else {
        s.push(c)
    }
}

/// Inserts `c` before the character at position `cursor` of `s` (at the end
/// when the cursor is past it).
pub fn insert_char_at(s: &str, cursor: usize, c: char) -> (r: String)
    ensures
        r@ == inserted(s@, cursor as nat, c),
{
    let mut v = chars_of(s);
    if cursor < v.len() {
        v.insert(cursor, c);
    } else {
        v.push(c);
    }
    string_of(&v)
}

/// Removes the character at position `k` of `s`; nothing when there is none.
pub fn remove_char_at(s: &str, k: usize) -> (r: Option<String>)
    ensures
        match r {
            Some(t) => k < s@.len() && t@ == s@.remove(k as int),
            None => k >= s@.len(),
        },
{
    let mut v = chars_of(s);
    if k < v.len() {
        let _ = v.remove(k);
        Some(string_of(&v))
    } else {
        None
    }
}

/// Removing what was just inserted gives the text back.
pub proof fn lemma_insert_then_remove(s: Seq<char>, k: nat, c: char)
    ensures
        inserted(s, k, c).remove(if k < s.len() {
            k as int
        } else {
            s.len() as int
        }) == s,
        inserted(s, k, c).len() == s.len() + 1,
{
    if k < s.len() {
        assert(s.insert(k as int, c).remove(k as int) =~= s);
    } else {
        assert(s.push(c).remove(s.len() as int) =~= s);
    }
}

/// The row after `i` in a list of `len` rows, wrapping to the top.
pub open spec fn row_after(i: nat, len: nat) -> nat {
    ((i + 1) as int % (len as int)) as nat
}

/// The row before `i` in a list of `len` rows, wrapping to the bottom.
pub open spec fn row_before(i: nat, len: nat) -> nat {
    ((i + len - 1) as int % (len as int)) as nat
}

/// The next row of a list of `len` rows (none moves when it is empty).
pub fn cycle_down(i: usize, len: usize) -> (r: usize)
    ensures
        len == 0 ==> r == i,
        len > 0 ==> r == row_after(i as nat, len as nat) && r < len,
{
    if len == 0 {
        return i;
    }
    let a = i % len;
    let r = if a + 1 == len {
        0
    } else {
        a + 1
    };
    proof {
        vstd::arithmetic::div_mod::lemma_fundamental_div_mod(i as int, len as int);
        vstd::arithmetic::div_mod::lemma_mod_bound(i as int, len as int);
        let q = (i as int) / (len as int);
        if a + 1 == len {
            assert((i + 1) as int == (q + 1) * (len as int) + 0) by (nonlinear_arith)
                requires
                    i as int == (len as int) * q + a,
                    a + 1 == len,
            ;
            vstd::arithmetic::div_mod::lemma_fundamental_div_mod_converse_mod(
                (i + 1) as int,
                len as int,
                q + 1,
                0,
            );
        } else {
            assert((i + 1) as int == q * (len as int) + (a + 1)) by (nonlinear_arith)
                requires
                    i as int == (len as int) * q + a,
            ;
            vstd::arithmetic::div_mod::lemma_fundamental_div_mod_converse_mod(
                (i + 1) as int,
                len as int,
                q,
                (a + 1) as int,
            );
        }
    }
    r
}

/// The previous row of a list of `len` rows (none moves when it is empty).
pub fn cycle_up(i: usize, len: usize) -> (r: usize)
    ensures
        len == 0 ==> r == i,
        len > 0 ==> r == row_before(i as nat, len as nat) && r < len,
{
    if len == 0 {
        return i;
    }
    let a = i % len;
    let r = if a == 0 {
        len - 1
    } else {
        a - 1
    };
    proof {
        vstd::arithmetic::div_mod::lemma_fundamental_div_mod(i as int, len as int);
        vstd::arithmetic::div_mod::lemma_mod_bound(i as int, len as int);
        let q = (i as int) / (len as int);
        if a == 0 {
            assert((i + len - 1) as int == q * (len as int) + (len - 1)) by (nonlinear_arith)
                requires
                    i as int == (len as int) * q + a,
                    a == 0,
            ;
            vstd::arithmetic::div_mod::lemma_fundamental_div_mod_converse_mod(
                (i + len - 1) as int,
                len as int,
                q,
                (len - 1) as int,
            );
        } else {
            assert((i + len - 1) as int == (q + 1) * (len as int) + (a - 1)) by (nonlinear_arith)
                requires
                    i as int == (len as int) * q + a,
            ;
            vstd::arithmetic::div_mod::lemma_fundamental_div_mod_converse_mod(
                (i + len - 1) as int,
                len as int,
                q + 1,
                (a - 1) as int,
            );
        }
    }
    r
}

/// Moving down a row and back up again returns to the row one started on.
pub proof fn lemma_down_then_up(i: nat, len: nat)
    requires
        i < len,
    ensures
        row_before(row_after(i, len), len) == i,
        row_after(row_before(i, len), len) == i,
{
    crate::app::tabs::lemma_next_then_prev(i, len);
}

/// Whether `c` is a decimal digit.
pub open spec fn is_digit(c: char) -> bool {
    '0' <= c && c <= '9'
}

/// The number the decimal digits `s` spell.
pub open spec fn digits_value(s: Seq<char>) -> nat
    decreases s.len(),
{
    if s.len() == 0 {
        0
    } else {
        digits_value(s.drop_last()) * 10 + ((s.last() as u32) - 48) as nat
    }
}

/// Whether every character of `s` is a decimal digit.
pub open spec fn all_digits(s: Seq<char>) -> bool {
    forall|k: int| 0 <= k < s.len() ==> is_digit(#[trigger] s[k])
}

/// `s` without a leading `+` sign.
pub open spec fn unsigned_body(s: Seq<char>) -> Seq<char> {
    if s.len() > 0 && s[0] == '+' {
        s.drop_first()
    } else {
        s
    }
}

/// What `str::parse::<usize>` gives for `s`: an optional `+` sign, then at
/// least one digit, and a value that fits.
pub open spec fn parsed_usize(s: Seq<char>) -> Option<nat> {
    let body = unsigned_body(s);
    if body.len() > 0 && all_digits(body) && digits_value(body) <= usize::MAX {
        Some(digits_value(body))
    } else {
        None
    }
}

proof fn lemma_digits_grow(s: Seq<char>, c: char)
    requires
        is_digit(c),
    ensures
        digits_value(s.push(c)) >= digits_value(s),
        digits_value(s.push(c)) == digits_value(s) * 10 + ((c as u32) - 48) as nat,
{
    assert(s.push(c).drop_last() =~= s);
}

proof fn lemma_digits_mono(s: Seq<char>, k: int)
    requires
        0 <= k <= s.len(),
        forall|j: int| 0 <= j < s.len() ==> is_digit(#[trigger] s[j]),
    ensures
        digits_value(s.subrange(0, k)) <= digits_value(s),
    decreases s.len() - k,
{
    if k < s.len() {
        lemma_digits_mono(s, k + 1);
        lemma_digits_grow(s.subrange(0, k), s[k]);
        assert(s.subrange(0, k).push(s[k]) =~= s.subrange(0, k + 1));
    } else {
        assert(s.subrange(0, k) =~= s);
    }
}

/// Reads a number as `str::parse::<usize>` does.
pub fn parse_usize(s: &str) -> (r: Option<usize>)
    ensures
        match r {
            Some(n) => parsed_usize(s@) == Some(n as nat),
            None => parsed_usize(s@) is None,
        },
{
    let cs = chars_of(s);
    let start: usize = if cs.len() > 0 && cs[0] == '+' {
        1
    } else {
        0
    };
    let ghost body = unsigned_body(s@);
    assert(body =~= cs@.subrange(start as int, cs.len() as int));
    if start >= cs.len() {
        assert(body.len() == 0);
        return None;
    }
    let mut i: usize = start;
    let mut value: usize = 0;
    while i < cs.len()
        invariant
            start <= i <= cs.len(),
            cs@ == s@,
            body == unsigned_body(s@),
            body == cs@.subrange(start as int, cs.len() as int),
            forall|k: int| start <= k < i ==> is_digit(#[trigger] cs@[k]),
            value == digits_value(cs@.subrange(start as int, i as int)),
        decreases cs.len() - i,
    {
        let c = cs[i];
        if !('0' <= c && c <= '9') {
            assert(body[(i - start) as int] == cs@[i as int]);
            assert(!is_digit(body[i - start]));
            assert(!all_digits(body));
            return None;
        }
        let d = (c as u32 - 48) as usize;
        proof {
            lemma_digits_grow(cs@.subrange(start as int, i as int), c);
            assert(cs@.subrange(start as int, i as int).push(c) =~= cs@.subrange(start as int, i + 1));
        }
        let next: u128 = (value as u128) * 10 + (d as u128);
        if next > usize::MAX as u128 {
            proof {
                if all_digits(body) {
                    lemma_digits_mono(body, (i + 1 - start) as int);
                    assert(body.subrange(0, (i + 1 - start) as int) =~= cs@.subrange(start as int, i + 1));
                }
            }
            return None;
        }
        value = next as usize;
        i = i + 1;
    }
    assert(cs@.subrange(start as int, cs.len() as int) =~= body);
    Some(value)
}

} // verus!
