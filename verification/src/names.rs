//! Case-insensitive name comparison, the relation the repository's
//! uniqueness rule and name lookup are stated with.

use vstd::prelude::*;

verus! {

/// What `str::to_lowercase` returns for a given sequence of characters.
/// Unicode case folding would take pages to state, so the result only gets
/// a name; the trusted wrapper below ties the name to the call.
pub uninterp spec fn lower_of(s: Seq<char>) -> Seq<char>;

/// Two names collide when they agree up to case.
pub open spec fn names_match(a: Seq<char>, b: Seq<char>) -> bool {
    lower_of(a) == lower_of(b)
}

/// Relies on `str::to_lowercase`: the lowercase form of `s`, a function of
/// the characters alone.
#[verifier::external_body]
fn fold_case(s: &str) -> (r: String)
    ensures
        r@ == lower_of(s@),
{
    s.to_lowercase()
}

/// Case-insensitive comparison of two names.
pub fn names_equal(a: &str, b: &str) -> (r: bool)
    ensures
        r == names_match(a@, b@),
{
    let la = fold_case(a);
    let lb = fold_case(b);
    la == lb
}

} // verus!
