//! The text a puzzle is hashed as: its three numbers in decimal, joined by
//! colons.

use vstd::prelude::*;
use vstd::utf8::{encode_utf8, is_ascii_chars, is_ascii_chars_encode_utf8};

use crate::inputs::{HashInputs, Puzzle};

verus! {

/// The character for a single decimal digit.
pub open spec fn digit(d: nat) -> char
    recommends
        d < 10,
{
    ('0' as nat + d) as char
}

/// A number in decimal, most significant digit first, without leading zeros.
pub open spec fn decimal(n: nat) -> Seq<char>
    decreases n,
{
    if n < 10 {
        seq![digit(n)]
    } else {
        decimal(n / 10).push(digit(n % 10))
    }
}

/// The text of a puzzle: `ts:nonce:difficulty`.
pub open spec fn preimage(p: Puzzle) -> Seq<char> {
    decimal(p.ts) + seq![':'] + decimal(p.nonce) + seq![':'] + decimal(p.difficulty)
}

/// Each character of an ASCII text as one byte.
pub open spec fn ascii_bytes(text: Seq<char>) -> Seq<u8> {
    text.map_values(|c: char| c as u8)
}

/// On ASCII text the UTF-8 encoding is the text itself, byte for character.
pub proof fn lemma_ascii_utf8(text: Seq<char>)
    requires
        is_ascii_chars(text),
    ensures
        encode_utf8(text) == ascii_bytes(text),
{
    is_ascii_chars_encode_utf8(text);
    assert(encode_utf8(text) =~= ascii_bytes(text));
}

/// A decimal numeral has at least one character, and all of them are digits.
pub proof fn lemma_decimal_digits(n: nat)
    ensures
        decimal(n).len() >= 1,
        forall|i: int| 0 <= i < decimal(n).len() ==> '0' <= #[trigger] decimal(n)[i] <= '9',
    decreases n,
{
    if n >= 10 {
        lemma_decimal_digits(n / 10);
    }
}

/// The text of a puzzle is ASCII.
pub proof fn lemma_preimage_is_ascii(p: Puzzle)
    ensures
        is_ascii_chars(preimage(p)),
{
    lemma_decimal_digits(p.ts);
    lemma_decimal_digits(p.nonce);
    lemma_decimal_digits(p.difficulty);
}

/// Appends the decimal numeral of `n` to `out`.
fn push_decimal(out: &mut Vec<u8>, n: u64)
    ensures
        final(out)@ == old(out)@ + ascii_bytes(decimal(n as nat)),
    decreases n,
{
    if n >= 10 {
        push_decimal(out, n / 10);
    }
    let low: u8 = (n % 10) as u8;
    out.push(48u8 + low);
    proof {
        let head = if n >= 10 {
            ascii_bytes(decimal((n / 10) as nat))
        } else {
            Seq::<u8>::empty()
        };
        assert(ascii_bytes(decimal(n as nat)) =~= head.push((48 + low) as u8));
        assert(final(out)@ =~= old(out)@ + ascii_bytes(decimal(n as nat)));
    }
}

/// The bytes that are hashed for `inputs`: the UTF-8 encoding of its text.
pub fn preimage_bytes(inputs: &HashInputs) -> (bytes: Vec<u8>)
    ensures
        bytes@ == encode_utf8(preimage(inputs@)),
{
    let mut bytes: Vec<u8> = Vec::new();
    push_decimal(&mut bytes, inputs.ts());
    bytes.push(58u8);
    push_decimal(&mut bytes, inputs.nonce() as u64);
    bytes.push(58u8);
    push_decimal(&mut bytes, inputs.difficulty() as u64);
    proof {
        lemma_preimage_is_ascii(inputs@);
        lemma_ascii_utf8(preimage(inputs@));
        assert(bytes@ =~= ascii_bytes(preimage(inputs@)));
    }
    bytes
}

} // verus!
