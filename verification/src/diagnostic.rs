//! A self-test that a host can call to see that hashing works end to end.

use vstd::prelude::*;

use crate::hashing::{digest, hash};
use crate::inputs::{HashInputs, Puzzle};

verus! {

/// What `{:?}` formatting makes of a string.
pub uninterp spec fn debug_text(text: Seq<char>) -> Seq<char>;

/// Formats a string with `{:?}`, that is with std's `Debug` for `String`.
/// Trusted: the result depends on the characters of the string alone. Nothing
/// is claimed about quoting or escaping.
#[verifier::external_body]
fn debug_format(text: &String) -> (out: String)
    ensures
        out@ == debug_text(text@),
{
    format!("{:?}", text)
}

/// Hashes the fixed inputs `2`, `1`, `1` and returns the digest as `{:?}`
/// shows it.
pub fn test() -> (out: String)
    ensures
        out@ == debug_text(digest(Puzzle { ts: 2, nonce: 1, difficulty: 1 })),
{
    let h = hash(&HashInputs::new(2, 1, 1));
    debug_format(&h)
}

} // verus!
