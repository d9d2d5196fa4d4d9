//! The proof-of-work puzzle: the validity test and the search for a proof.

use crate::hashing::digest;
use crate::hashing::hex_chars;
use crate::hashing::sha256;
use crate::text::decimal;
use crate::text::push_decimal;
use rand::Rng;
use vstd::prelude::*;
use vstd::string::*;
use vstd::utf8::encode_utf8;

verus! {

/// The least proof that the search tries.
pub const PROOF_MIN: u32 = 1000;

/// The greatest proof that the search tries.
pub const PROOF_MAX: u32 = 9998;

/// How many candidates the search draws at random before it turns to the
/// range in order: as many as the range holds.
pub const RANDOM_DRAWS: u32 = PROOF_MAX - PROOF_MIN + 1;

/// Whether a hash meets the difficulty target: it starts with `00`.
pub open spec fn meets_target(hash: Seq<char>) -> bool {
    hash.len() >= 2 && hash[0] == '0' && hash[1] == '0'
}

/// The text that is hashed to test `proof` against `last_proof`: the two
/// numbers in decimal, one after the other.
pub open spec fn guess_text(last_proof: u32, proof: u32) -> Seq<char> {
    decimal(last_proof as nat) + decimal(proof as nat)
}

/// Whether `proof` solves the puzzle that `last_proof` poses: the
/// hexadecimal SHA-256 digest of [`guess_text`] meets the target.
pub open spec fn solves(last_proof: u32, proof: u32) -> bool {
    meets_target(hex_chars(sha256(encode_utf8(guess_text(last_proof, proof)))))
}

/// Whether a proof lies in the range that the search covers.
pub open spec fn in_search_range(proof: u32) -> bool {
    PROOF_MIN <= proof <= PROOF_MAX
}

/// Whether `hash` meets the difficulty target.
pub fn meets_difficulty(hash: &str) -> (ok: bool)
    ensures
        ok == meets_target(hash@),
{
    hash.unicode_len() >= 2 && hash.get_char(0) == '0' && hash.get_char(1) == '0'
}

/// Whether `proof` solves the puzzle that `last_proof` poses.
pub fn valid_proof(last_proof: u32, proof: u32) -> (ok: bool)
    ensures
        ok == solves(last_proof, proof),
{
    let mut guess = String::new();
    push_decimal(&mut guess, last_proof as u64);
    push_decimal(&mut guess, proof as u64);
    assert(guess@ =~= guess_text(last_proof, proof));
    let guess_hash = digest(guess.as_str().as_bytes());
    meets_difficulty(guess_hash.as_str())
}

/// Draws a number with `rand::thread_rng().gen_range(low..high)`. The
/// contract claims only what `gen_range` documents of a half-open range: the
/// number is at least `low` and less than `high`. An empty range, on which
/// `gen_range` panics, is left out. `thread_rng` itself stops the program
/// where the operating system cannot seed it; no input decides that.
#[verifier::external_body]
fn draw(low: u32, high: u32) -> (n: u32)
    requires
        low < high,
    ensures
        low <= n < high,
{
    rand::thread_rng().gen_range(low..high)
}

/// The place of the first of `candidates` that solves the puzzle of
/// `last_proof`, or `None` where none of them does.
pub fn first_solution(last_proof: u32, candidates: &[u32]) -> (found: Option<usize>)
    ensures
        match found {
            Some(k) => {
                &&& k < candidates@.len()
                &&& solves(last_proof, candidates@[k as int])
                &&& forall|j: int| 0 <= j < k ==> !solves(last_proof, #[trigger] candidates@[j])
            },
            None => forall|j: int|
                0 <= j < candidates@.len() ==> !solves(last_proof, #[trigger] candidates@[j]),
        },
{
    let mut k: usize = 0;
    while k < candidates.len()
        invariant
            k <= candidates@.len(),
            forall|j: int| 0 <= j < k ==> !solves(last_proof, #[trigger] candidates@[j]),
        decreases candidates@.len() - k,
    {
        if valid_proof(last_proof, candidates[k]) {
            return Some(k);
        }
        k = k + 1;
    }
    None
}

/// Draws `count` candidates from the search range, one after the other.
fn draw_candidates(count: u32) -> (drawn: Vec<u32>)
    ensures
        drawn@.len() == count,
        forall|j: int| 0 <= j < drawn@.len() ==> in_search_range(#[trigger] drawn@[j]),
{
    let mut drawn: Vec<u32> = Vec::new();
    let mut n: u32 = 0;
    while n < count
        invariant
            n <= count,
            drawn@.len() == n,
            forall|j: int| 0 <= j < drawn@.len() ==> in_search_range(#[trigger] drawn@[j]),
        decreases count - n,
    {
        let candidate: u32 = draw(PROOF_MIN, PROOF_MAX + 1);
        drawn.push(candidate);
        n = n + 1;
    }
    drawn
}

/// Every proof of the search range, in rising order.
fn candidates_in_order() -> (all: Vec<u32>)
    ensures
        all@.len() == PROOF_MAX - PROOF_MIN + 1,
        forall|j: int| 0 <= j < all@.len() ==> #[trigger] all@[j] == PROOF_MIN + j,
{
    let mut all: Vec<u32> = Vec::new();
    let mut candidate: u32 = PROOF_MIN;
    while candidate <= PROOF_MAX
        invariant
            PROOF_MIN <= candidate <= PROOF_MAX + 1,
            all@.len() == candidate - PROOF_MIN,
            forall|j: int| 0 <= j < all@.len() ==> #[trigger] all@[j] == PROOF_MIN + j,
        decreases PROOF_MAX + 1 - candidate,
    {
        all.push(candidate);
        candidate = candidate + 1;
    }
    all
}

/// Searches the range from [`PROOF_MIN`] to [`PROOF_MAX`] for a proof that
/// solves the puzzle of `last_proof`. [`RANDOM_DRAWS`] candidates are drawn
/// at random, and the first of them that solves the puzzle is returned. If
/// none of them does, the first solution in the range in rising order is
/// returned, so that the search ends. It fails only if the range holds no
/// solution at all.
pub fn proof_of_work(last_proof: u32) -> (found: Option<u32>)
    ensures
        match found {
            Some(proof) => in_search_range(proof) && solves(last_proof, proof),
            None => forall|proof: u32| in_search_range(proof) ==> !solves(last_proof, proof),
        },
{
    let drawn = draw_candidates(RANDOM_DRAWS);
    match first_solution(last_proof, drawn.as_slice()) {
        Some(k) => Some(drawn[k]),
        None => {
            let all = candidates_in_order();
            match first_solution(last_proof, all.as_slice()) {
                Some(k) => Some(all[k]),
                None => {
                    assert forall|proof: u32| in_search_range(proof) implies !solves(
                        last_proof,
                        proof,
                    ) by {
                        assert(all@[proof - PROOF_MIN] == proof);
                    }
                    None
                },
            }
        },
    }
}

} // verus!
