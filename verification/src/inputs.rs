//! The value a puzzle is posed over.

use vstd::prelude::*;

verus! {

/// The mathematical content of a puzzle instance.
pub struct Puzzle {
    /// The timestamp the puzzle is bound to.
    pub ts: nat,
    /// The value that is searched over.
    pub nonce: nat,
    /// How many leading `0` characters the digest must have.
    pub difficulty: nat,
}

/// Hash inputs of timestamp, nonce, and difficulty.
///
/// A value is fixed once it is built: mining makes a fresh one per nonce.
#[derive(Debug)]
pub struct HashInputs {
    ts: u64,
    nonce: usize,
    difficulty: u16,
}

impl View for HashInputs {
    type V = Puzzle;

    closed spec fn view(&self) -> Puzzle {
        Puzzle { ts: self.ts as nat, nonce: self.nonce as nat, difficulty: self.difficulty as nat }
    }
}

impl HashInputs {
    /// Builds the inputs from their three parts.
    pub fn new(ts: u64, nonce: usize, difficulty: u16) -> (inputs: HashInputs)
        ensures
            inputs@ == (Puzzle { ts: ts as nat, nonce: nonce as nat, difficulty: difficulty as nat }),
    {
        HashInputs { ts, nonce, difficulty }
    }

    /// The timestamp.
    pub fn ts(&self) -> (ts: u64)
        ensures
            ts == self@.ts,
    {
        self.ts
    }

    /// The nonce.
    pub fn nonce(&self) -> (nonce: usize)
        ensures
            nonce == self@.nonce,
    {
        self.nonce
    }

    /// The difficulty.
    pub fn difficulty(&self) -> (difficulty: u16)
        ensures
            difficulty == self@.difficulty,
    {
        self.difficulty
    }
}

impl Default for HashInputs {
    /// The all-zero inputs.
    fn default() -> (inputs: HashInputs)
        ensures
            inputs@ == (Puzzle { ts: 0, nonce: 0, difficulty: 0 }),
    {
        HashInputs { ts: 0, nonce: 0, difficulty: 0 }
    }
}

} // verus!
