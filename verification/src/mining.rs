//! Deciding whether a digest wins, checking a proposed solution, and searching
//! a batch of nonces for one.

use vstd::prelude::*;
use vstd::std_specs::iter::IteratorSpec;

use crate::hashing::{digest, hash};
use crate::inputs::{HashInputs, Puzzle};

verus! {

/// A digest wins when none of its first `difficulty` characters differs from
/// `0`. Characters that the digest does not have do not count against it.
pub open spec fn is_winning(digest: Seq<char>, difficulty: nat) -> bool {
    forall|i: int| 0 <= i < digest.len() && i < difficulty ==> digest[i] == '0'
}

/// A puzzle is solved when its own digest wins at its own difficulty.
pub open spec fn solves(p: Puzzle) -> bool {
    is_winning(digest(p), p.difficulty)
}

/// The candidate that mining tries for one nonce.
pub open spec fn candidate(ts: u64, nonce: nat, difficulty: u16) -> Puzzle {
    Puzzle { ts: ts as nat, nonce, difficulty: difficulty as nat }
}

/// Checks if a hash is a winning hash by checking if the first `difficulty`
/// characters are `0`.
pub fn winning_hash(hash: String, difficulty: u16) -> (wins: bool)
    ensures
        wins == is_winning(hash@, difficulty as nat),
{
    let mut chars = hash.as_str().chars();
    let mut i: u16 = 0;
    while i < difficulty
        invariant
            i <= difficulty,
            chars.obeys_prophetic_iter_laws(),
            i <= hash@.len(),
            chars.remaining() == hash@.skip(i as int),
            forall|j: int| 0 <= j < i ==> hash@[j] == '0',
        decreases difficulty - i,
    {
        match chars.next() {
            None => {
                return true;
            },
            Some(c) => {
                if c != '0' {
                    return false;
                }
            },
        }
        i += 1;
    }
    true
}

/// Verifies a hash: whether the inputs' own digest wins at their difficulty.
///
/// This costs one digest, against the many that finding the nonce took.
pub fn verify(hash_inputs: &HashInputs) -> (ok: bool)
    ensures
        ok == solves(hash_inputs@),
{
    winning_hash(hash(hash_inputs), hash_inputs.difficulty())
}

/// Mines a reward: tries the nonces `0, 1, ..` below `batch_size` in order and
/// returns the first whose candidate verifies, or `None` when none of them
/// does. Nothing is retried or remembered between batches.
///
/// The difficulty must be at least one.
pub fn mine(ts: u64, difficulty: u16, batch_size: usize) -> (found: Option<HashInputs>)
    requires
        difficulty >= 1,
    ensures
        match found {
            Some(inputs) => {
                &&& inputs@ == candidate(ts, inputs@.nonce, difficulty)
                &&& inputs@.nonce < batch_size
                &&& solves(inputs@)
                &&& forall|n: nat|
                    n < inputs@.nonce ==> !solves(#[trigger] candidate(ts, n, difficulty))
            },
            None => forall|n: nat|
                n < batch_size ==> !solves(#[trigger] candidate(ts, n, difficulty)),
        },
{
    let mut nonce: usize = 0;
    while nonce < batch_size
        invariant
            nonce <= batch_size,
            forall|n: nat| n < nonce ==> !solves(#[trigger] candidate(ts, n, difficulty)),
        decreases batch_size - nonce,
    {
        let hash_inputs = HashInputs::new(ts, nonce, difficulty);
        if verify(&hash_inputs) {
            return Some(hash_inputs);
        }
        nonce += 1;
    }
    None
}

/// At difficulty zero every digest wins.
pub proof fn lemma_zero_difficulty_wins(digest: Seq<char>)
    ensures
        is_winning(digest, 0),
{
}

/// At difficulty one a digest that has a first character wins exactly when
/// that character is `0`.
pub proof fn lemma_difficulty_one(digest: Seq<char>)
    requires
        digest.len() >= 1,
    ensures
        is_winning(digest, 1) <==> digest[0] == '0',
{
}

/// A digest shorter than the difficulty wins exactly when all the characters
/// it has are `0`; the empty digest wins at every difficulty.
pub proof fn lemma_short_digest(digest: Seq<char>, difficulty: nat)
    requires
        difficulty > digest.len(),
    ensures
        is_winning(digest, difficulty) <==> forall|i: int|
            0 <= i < digest.len() ==> digest[i] == '0',
        digest.len() == 0 ==> is_winning(digest, difficulty),
{
}

} // verus!
