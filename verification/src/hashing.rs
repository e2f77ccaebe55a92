//! The digest of a puzzle: SHA-512 applied twice, the second time to the hex
//! text of the first result rather than to its raw bytes.

use sha2::{Digest, Sha512};
use vstd::prelude::*;
use vstd::string::StringSliceAdditionalSpecFns;
use vstd::utf8::encode_utf8;

use crate::inputs::{HashInputs, Puzzle};
use crate::text::{preimage, preimage_bytes};

verus! {

/// The SHA-512 digest of a message, as `sha2` computes it.
pub uninterp spec fn sha512(message: Seq<u8>) -> Seq<u8>;

/// The lowercase hex character for a value below sixteen.
pub open spec fn hex_digit(v: nat) -> char
    recommends
        v < 16,
{
    if v < 10 {
        ('0' as nat + v) as char
    } else {
        ('a' as nat + v - 10) as char
    }
}

/// Bytes written in lowercase hex: two characters per byte, the high half
/// first.
pub open spec fn hex_text(bytes: Seq<u8>) -> Seq<char> {
    Seq::new(
        2 * bytes.len(),
        |i: int|
            if i % 2 == 0 {
                hex_digit((bytes[i / 2] / 16) as nat)
            } else {
                hex_digit((bytes[i / 2] % 16) as nat)
            },
    )
}

/// The SHA-512 digest of a message in lowercase hex.
pub open spec fn sha512_hex(message: Seq<u8>) -> Seq<char> {
    hex_text(sha512(message))
}

/// The digest of a puzzle: the hex SHA-512 digest of the UTF-8 bytes of the
/// hex SHA-512 digest of the UTF-8 bytes of the puzzle's text.
pub open spec fn digest(p: Puzzle) -> Seq<char> {
    sha512_hex(encode_utf8(sha512_hex(encode_utf8(preimage(p)))))
}

/// One of the characters `0` to `9` and `a` to `f`.
pub open spec fn is_lower_hex(c: char) -> bool {
    ('0' <= c <= '9') || ('a' <= c <= 'f')
}

/// The shape of every digest: 128 lowercase hex characters.
pub open spec fn is_hex_digest(text: Seq<char>) -> bool {
    &&& text.len() == 128
    &&& forall|i: int| 0 <= i < text.len() ==> is_lower_hex(#[trigger] text[i])
}

/// Hex text is twice as long as the bytes it writes, and all of it is
/// lowercase hex.
pub proof fn lemma_hex_text_shape(bytes: Seq<u8>)
    ensures
        hex_text(bytes).len() == 2 * bytes.len(),
        forall|i: int| 0 <= i < hex_text(bytes).len() ==> is_lower_hex(#[trigger] hex_text(bytes)[i]),
{
}

/// The digest depends on nothing but the puzzle: two results for inputs with
/// the same content are the same text.
pub proof fn lemma_hash_deterministic(a: HashInputs, b: HashInputs, first: String, second: String)
    requires
        a@ == b@,
        first@ == digest(a@),
        second@ == digest(b@),
    ensures
        first@ == second@,
{
}

/// Calls `sha2::Sha512::digest` (the one-shot form of `Digest`) and hands the
/// 64 bytes back as an array. Trusted: the result is the SHA-512 digest of
/// `message`, a function of the message alone.
#[verifier::external_body]
fn sha512_digest(message: &[u8]) -> (out: [u8; 64])
    ensures
        out@ == sha512(message@),
{
    Sha512::digest(message).into()
}

/// Calls `hex::encode`. Trusted: the result holds, for each byte in order, the
/// lowercase hex character of its high four bits and then that of its low
/// four bits.
#[verifier::external_body]
fn hex_encode(bytes: &[u8]) -> (text: String)
    ensures
        text@ == hex_text(bytes@),
{
    hex::encode(bytes)
}

/// Hashes a message with SHA-512 and writes the result in lowercase hex.
pub fn sha512_hex_string(message: &[u8]) -> (text: String)
    ensures
        text@ == sha512_hex(message@),
        is_hex_digest(text@),
{
    let raw = sha512_digest(message);
    proof {
        lemma_hex_text_shape(raw@);
    }
    hex_encode(raw.as_slice())
}

/// Hashes the hash input.
pub fn hash(hash_inputs: &HashInputs) -> (out: String)
    ensures
        out@ == digest(hash_inputs@),
        is_hex_digest(out@),
{
    let message = preimage_bytes(hash_inputs);
    let intermediate = sha512_hex_string(message.as_slice());
    sha512_hex_string(intermediate.as_str().as_bytes())
}

} // verus!
