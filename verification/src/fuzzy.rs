use vstd::prelude::*;
use nucleo::pattern::{CaseMatching, Normalization, Pattern};

verus! {

/// The score that fuzzy matching gives `haystack` for the query `query`,
/// `None` when it does not match.
pub uninterp spec fn fuzzy_score(query: Seq<char>, haystack: Seq<char>) -> Option<u32>;

/// Scores `haystack` against `query` with `nucleo`: `Pattern::parse` with smart
/// case and smart normalization, then `Pattern::score` with a fresh
/// `Matcher` in its default configuration. The contract only names the score,
/// which depends on the two texts alone.
#[verifier::external_body]
pub(crate) fn fuzzy_match(query: &str, haystack: &str) -> (r: Option<u32>)
    ensures
        r == fuzzy_score(query@, haystack@),
{
    let mut matcher = nucleo::Matcher::new(nucleo::Config::DEFAULT);
    let pattern = Pattern::parse(query, CaseMatching::Smart, Normalization::Smart);
    let hay = nucleo::Utf32String::from(haystack);
    pattern.score(hay.slice(..), &mut matcher)
}

} // verus!
