//! Edit distance between two names, computed by `strsim`.
use vstd::prelude::*;

verus! {

/// The Levenshtein distance from `a` to `b`: the least number of
/// single-character insertions, deletions and substitutions that turn one
/// into the other.
pub uninterp spec fn edit_distance(a: Seq<char>, b: Seq<char>) -> nat;

/// Relies on `strsim::levenshtein`, which returns that distance and does
/// not fail on any pair of strings.
#[verifier::external_body]
pub(crate) fn levenshtein(a: &String, b: &String) -> (r: usize)
    ensures
        r as nat == edit_distance(a@, b@),
{
    strsim::levenshtein(a, b)
}

} // verus!
