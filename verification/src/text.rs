//! Joining texts.

use vstd::prelude::*;

verus! {

/// Joins two texts. Wraps `[&str]::concat` of std, which yields the
/// characters of the first followed by those of the second.
#[verifier::external_body]
pub(crate) fn join(a: &str, b: &str) -> (r: String)
    ensures
        r@ == a@ + b@,
{
    [a, b].concat()
}

/// Joins three texts.
pub(crate) fn join3(a: &str, b: &str, c: &str) -> (r: String)
    ensures
        r@ == a@ + b@ + c@,
{
    let ab = join(a, b);
    join(ab.as_str(), c)
}

} // verus!
