use vstd::prelude::*;
use crate::text::{chars_of, push_str, starts_with_chars, string_of};

verus! {

/// Git repository context for status bar rendering.
#[derive(Debug, Clone, PartialEq, Eq)]
pub struct GitContext {
    /// Name of the active branch.
    pub branch: String,
    /// Number of untracked, modified, or staged files.
    pub dirty_count: usize,
}

/// What a repository's HEAD looks like.
#[derive(Debug, Clone, PartialEq, Eq)]
pub enum HeadInfo {
    /// HEAD resolves and sits on a branch; its short name.
    Branch { shorthand: Option<String> },
    /// HEAD resolves but is detached; the commit it names (as hex) and its short name.
    Detached { target_hex: Option<String>, shorthand: Option<String> },
    /// HEAD does not resolve (a branch with no commit yet); the reference it names.
    Unresolved { symbolic_target: Option<String> },
}

/// The text of an optional string, or `default`.
pub open spec fn text_or(s: Option<String>, default: Seq<char>) -> Seq<char> {
    match s {
        Some(t) => t@,
        None => default,
    }
}

/// The branch label shown for a HEAD.
pub open spec fn branch_label_spec(h: HeadInfo) -> Seq<char> {
    match h {
        HeadInfo::Branch { shorthand } => text_or(shorthand, "unknown"@),
        HeadInfo::Detached { target_hex, shorthand } => match target_hex {
            Some(hex) => if hex@.len() >= 7 {
                "detached@"@ + hex@.subrange(0, 7)
            } else {
                "detached"@
            },
            None => text_or(shorthand, "detached"@),
        },
        HeadInfo::Unresolved { symbolic_target } => match symbolic_target {
            Some(t) => if t@.len() >= 11 && t@.subrange(0, 11) == "refs/heads/"@ {
                t@.subrange(11, t@.len() as int)
            } else {
                t@
            },
            None => "main"@,
        },
    }
}

fn text_or_exec(s: &Option<String>, default: &str) -> (r: String)
    ensures
        r@ == text_or(*s, default@),
{
    match s {
        Some(t) => t.clone(),
        None => String::from_str(default),
    }
}

/// The branch label shown for a HEAD: its short name, `detached@` and seven
/// hex digits of a detached commit, or the branch an unborn HEAD names.
pub fn branch_label(h: &HeadInfo) -> (r: String)
    ensures
        r@ == branch_label_spec(*h),
{
    match h {
        HeadInfo::Branch { shorthand } => text_or_exec(shorthand, "unknown"),
        HeadInfo::Detached { target_hex, shorthand } => match target_hex {
            Some(hex) => {
                let hc = chars_of(hex.as_str());
                if hc.len() >= 7 {
                    let mut out: Vec<char> = Vec::new();
                    push_str(&mut out, "detached@");
                    let mut i: usize = 0;
                    let ghost start = out@;
                    while i < 7
                        invariant
                            i <= 7,
                            hc.len() >= 7,
                            out@ == start + hc@.subrange(0, i as int),
                        decreases 7 - i,
                    {
                        out.push(hc[i]);
                        i = i + 1;
                        assert(out@ =~= start + hc@.subrange(0, i as int));
                    }
                    string_of(&out)
                } else {
                    String::from_str("detached")
                }
            },
            None => text_or_exec(shorthand, "detached"),
        },
        HeadInfo::Unresolved { symbolic_target } => match symbolic_target {
            Some(t) => {
                proof {
                    reveal_strlit("refs/heads/");
                }
                let tc = chars_of(t.as_str());
                let prefix = chars_of("refs/heads/");
                if starts_with_chars(&tc, &prefix) {
                    let mut out: Vec<char> = Vec::new();
                    let mut i: usize = 11;
                    while i < tc.len()
                        invariant
                            11 <= i <= tc.len(),
                            out@ == tc@.subrange(11, i as int),
                        decreases tc.len() - i,
                    {
                        out.push(tc[i]);
                        i = i + 1;
                        assert(out@ =~= tc@.subrange(11, i as int));
                    }
                    string_of(&out)
                } else {
                    t.clone()
                }
            },
            None => String::from_str("main"),
        },
    }
}

impl GitContext {
    /// The context of a repository with the given HEAD: a bare repository has
    /// no working files, so nothing is dirty; otherwise every entry that the
    /// status listing reports counts (none when the listing failed).
    pub fn from_repository(head: &HeadInfo, is_bare: bool, status_count: Option<usize>) -> (r: GitContext)
        ensures
            r.branch@ == branch_label_spec(*head),
            r.dirty_count == if is_bare {
                0
            } else {
                match status_count {
                    Some(n) => n,
                    None => 0,
                }
            },
    {
        let dirty_count = if is_bare {
            0
        } else {
            match status_count {
                Some(n) => n,
                None => 0,
            }
        };
        GitContext { branch: branch_label(head), dirty_count }
    }
}

} // verus!
