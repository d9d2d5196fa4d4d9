//! The hashing service: SHA-256 digests and their hexadecimal form.

use sha2::Digest;
use sha2::Sha256;
use vstd::prelude::*;
use vstd::string::*;

verus! {

/// The SHA-256 digest of a byte sequence.
pub uninterp spec fn sha256(data: Seq<u8>) -> Seq<u8>;

/// Calls `sha2::Sha256::digest`. The contract claims that the 32 bytes it
/// returns depend on the input bytes alone, and gives them the name
/// [`sha256`]; that they are the SHA-256 digest of the input is taken from
/// the `sha2` crate and not proved here.
#[verifier::external_body]
fn sha256_bytes(data: &[u8]) -> (out: [u8; 32])
    ensures
        out@ == sha256(data@),
{
    Sha256::digest(data).into()
}

/// The sixteen hexadecimal digits, in order, letters in lower case.
pub open spec fn hex_digits() -> Seq<char> {
    seq!['0', '1', '2', '3', '4', '5', '6', '7', '8', '9', 'a', 'b', 'c', 'd', 'e', 'f']
}

/// The hexadecimal form of a byte sequence: two lower-case digits per byte,
/// high nibble first.
pub open spec fn hex_chars(bytes: Seq<u8>) -> Seq<char>
    decreases bytes.len(),
{
    if bytes.len() == 0 {
        Seq::empty()
    } else {
        hex_chars(bytes.drop_last()).push(hex_digits()[bytes.last() as int / 16]).push(
            hex_digits()[bytes.last() as int % 16],
        )
    }
}

/// The hexadecimal form of `n` bytes has `2 * n` characters.
pub proof fn lemma_hex_chars_len(bytes: Seq<u8>)
    ensures
        hex_chars(bytes).len() == 2 * bytes.len(),
    decreases bytes.len(),
{
    if bytes.len() > 0 {
        lemma_hex_chars_len(bytes.drop_last());
    }
}

/// The hexadecimal form of a byte slice.
pub fn to_hex(bytes: &[u8]) -> (hex: String)
    ensures
        hex@ == hex_chars(bytes@),
{
    let mut hex = String::new();
    let mut i: usize = 0;
    while i < bytes.len()
        invariant
            i <= bytes.len(),
            hex@ == hex_chars(bytes@.take(i as int)),
        decreases bytes.len() - i,
    {
        let high: usize = (bytes[i] / 16) as usize;
        let low: usize = (bytes[i] % 16) as usize;
        proof {
            reveal_strlit("0123456789abcdef");
            assert("0123456789abcdef"@ =~= hex_digits());
            assert(hex_digits().subrange(high as int, high + 1) =~= seq![hex_digits()[high as int]]);
            assert(hex_digits().subrange(low as int, low + 1) =~= seq![hex_digits()[low as int]]);
            assert(bytes@.take(i + 1).drop_last() =~= bytes@.take(i as int));
        }
        hex.append("0123456789abcdef".substring_ascii(high, high + 1));
        hex.append("0123456789abcdef".substring_ascii(low, low + 1));
        i = i + 1;
        assert(hex@ =~= hex_chars(bytes@.take(i as int)));
    }
    assert(bytes@.take(i as int) =~= bytes@);
    hex
}

/// The digest of `data`: the hexadecimal form of its SHA-256 hash, 64
/// characters long.
pub fn digest(data: &[u8]) -> (hex: String)
    ensures
        hex@ == hex_chars(sha256(data@)),
        hex@.len() == 64,
{
    let raw = sha256_bytes(data);
    proof {
        lemma_hex_chars_len(raw@);
    }
    to_hex(raw.as_slice())
}

} // verus!
