//! Text primitives shared by the ledger: decimal rendering of integers and
//! comparison of string slices.

use vstd::prelude::*;
use vstd::string::*;
use vstd::utf8::*;

verus! {

/// The ten decimal digits, in order.
pub open spec fn digits() -> Seq<char> {
    seq!['0', '1', '2', '3', '4', '5', '6', '7', '8', '9']
}

/// The decimal rendering of `n`: most significant digit first, no sign, no
/// leading zeros, and the single digit `0` for zero.
pub open spec fn decimal(n: nat) -> Seq<char>
    decreases n,
{
    if n < 10 {
        seq![digits()[n as int]]
    } else {
        decimal(n / 10).push(digits()[(n % 10) as int])
    }
}

/// Appends the decimal rendering of `n` to `out`.
pub fn push_decimal(out: &mut String, n: u64)
    ensures
        final(out)@ == old(out)@ + decimal(n as nat),
{
    // Least significant digit first.
    let mut rev: Vec<u8> = Vec::new();
    let mut rest: u64 = n;
    while rest >= 10
        invariant
            forall|i: int| 0 <= i < rev.len() ==> rev[i] < 10,
            decimal(n as nat) == decimal(rest as nat) + low_digits(rev@),
        decreases rest,
    {
        let d: u8 = (rest % 10) as u8;
        proof {
            let r = rev@;
            assert(low_digits(r.push(d)) == seq![digits()[d as int]] + low_digits(r)) by {
                lemma_low_digits_push(r, d);
            }
            assert(decimal(rest as nat) == decimal((rest / 10) as nat).push(digits()[d as int]));
            assert(decimal((rest / 10) as nat).push(digits()[d as int]) + low_digits(r)
                =~= decimal((rest / 10) as nat) + (seq![digits()[d as int]] + low_digits(r)));
        }
        rev.push(d);
        rest = rest / 10;
    }
    proof {
        lemma_low_digits_push(rev@, rest as u8);
    }
    rev.push(rest as u8);
    let ghost start = out@;
    let mut k: usize = rev.len();
    assert(rev@.take(k as int) =~= rev@);
    while k > 0
        invariant
            k <= rev.len(),
            forall|i: int| 0 <= i < rev.len() ==> rev[i] < 10,
            out@ + low_digits(rev@.take(k as int)) == start + low_digits(rev@),
        decreases k,
    {
        k = k - 1;
        let d: usize = rev[k] as usize;
        proof {
            reveal_strlit("0123456789");
            let t = rev@.take(k as int);
            assert(rev@.take(k + 1) == t.push(rev[k as int]));
            lemma_low_digits_push(t, rev[k as int]);
            assert("0123456789"@ =~= digits());
        }
        out.append("0123456789".substring_ascii(d, d + 1));
        proof {
            assert(digits().subrange(d as int, d + 1) =~= seq![digits()[d as int]]);
            let t = rev@.take(k as int);
            assert((old(out)@ + seq![digits()[d as int]]) + low_digits(t) =~= old(out)@ + (seq![
                digits()[d as int],
            ] + low_digits(t)));
        }
    }
    assert(rev@.take(0) =~= Seq::<u8>::empty());
}

/// The digits of a number given least significant first, rendered most
/// significant first.
spec fn low_digits(rev: Seq<u8>) -> Seq<char>
    decreases rev.len(),
{
    if rev.len() == 0 {
        Seq::empty()
    } else {
        seq![digits()[rev.last() as int]] + low_digits(rev.drop_last())
    }
}

proof fn lemma_low_digits_push(rev: Seq<u8>, d: u8)
    ensures
        low_digits(rev.push(d)) == seq![digits()[d as int]] + low_digits(rev),
{
    assert(rev.push(d).drop_last() =~= rev);
}

/// Whether two string slices hold the same characters.
pub fn str_eq(a: &str, b: &str) -> (same: bool)
    ensures
        same == (a@ == b@),
{
    let x = a.as_bytes();
    let y = b.as_bytes();
    proof {
        // Equal encodings decode to equal texts.
        encode_utf8_decode_utf8(a@);
        encode_utf8_decode_utf8(b@);
    }
    if x.len() != y.len() {
        return false;
    }
    let mut i: usize = 0;
    while i < x.len()
        invariant
            i <= x.len(),
            x.len() == y.len(),
            x@ == encode_utf8(a@),
            y@ == encode_utf8(b@),
            forall|j: int| 0 <= j < i ==> x[j] == y[j],
        decreases x.len() - i,
    {
        if x[i] != y[i] {
            return false;
        }
        i = i + 1;
    }
    assert(x@ =~= y@);
    true
}

} // verus!
