//! Decimal rendering for the result sink: the gas column is written as
//! decimal text, with a sentinel zero standing for "backend metered no
//! gas" rather than a guessed cost.

use vstd::prelude::*;

verus! {

/// The decimal digits of `v`, most significant first; no leading zero
/// except for zero itself.
pub open spec fn decimal_digits(v: nat) -> Seq<u8>
    decreases v,
{
    if v < 10 {
        seq![(0x30 + v) as u8]
    } else {
        decimal_digits(v / 10).push((0x30 + (v % 10)) as u8)
    }
}

/// A sequence read back to front.
pub open spec fn flipped(s: Seq<u8>) -> Seq<u8>
    decreases s.len(),
{
    if s.len() == 0 {
        s
    } else {
        seq![s.last()] + flipped(s.drop_last())
    }
}

proof fn lemma_flipped_index(s: Seq<u8>)
    ensures
        flipped(s).len() == s.len(),
        forall|k: int| 0 <= k < s.len() ==> flipped(s)[k] == s[s.len() - 1 - k],
    decreases s.len(),
{
    if s.len() > 0 {
        lemma_flipped_index(s.drop_last());
        assert forall|k: int| 0 <= k < s.len() implies flipped(s)[k] == s[s.len() - 1 - k] by {
            if k > 0 {
                assert(flipped(s)[k] == flipped(s.drop_last())[k - 1]);
                assert(s.drop_last()[s.len() - 1 - k] == s[s.len() - 1 - k]);
            }
        }
    }
}

/// Render `v` as decimal text.
pub fn u128_to_decimal(v: u128) -> (r: Vec<u8>)
    ensures
        r@ == decimal_digits(v as nat),
{
    let mut rev: Vec<u8> = Vec::new();
    let mut x: u128 = v;
    while x >= 10
        invariant
            decimal_digits(v as nat) == decimal_digits(x as nat) + flipped(rev@),
        decreases x,
    {
        let d: u8 = ((x % 10) as u8) + 0x30;
        proof {
            let xn = x as nat;
            assert(decimal_digits(xn) == decimal_digits(xn / 10).push(d));
            assert(rev@.push(d).drop_last() =~= rev@);
            assert(rev@.push(d).last() == d);
            assert(flipped(rev@.push(d)) =~= seq![d] + flipped(rev@));
            assert(decimal_digits(xn / 10) + flipped(rev@.push(d)) =~= decimal_digits(xn)
                + flipped(rev@));
        }
        rev.push(d);
        x = x / 10;
    }
    let d0: u8 = (x as u8) + 0x30;
    proof {
        assert(decimal_digits(x as nat) =~= seq![d0]);
        assert(rev@.push(d0).drop_last() =~= rev@);
        assert(rev@.push(d0).last() == d0);
        assert(flipped(rev@.push(d0)) =~= seq![d0] + flipped(rev@));
        assert(flipped(rev@.push(d0)) =~= decimal_digits(v as nat));
    }
    rev.push(d0);
    let n: usize = rev.len();
    let mut out: Vec<u8> = Vec::new();
    let mut i: usize = n;
    proof {
        lemma_flipped_index(rev@);
    }
    while i > 0
        invariant
            0 <= i <= n,
            n == rev@.len(),
            out@.len() == n - i,
            flipped(rev@).len() == n,
            forall|k: int| 0 <= k < rev@.len() ==> flipped(rev@)[k] == rev@[rev@.len() - 1 - k],
            forall|k: int| 0 <= k < out@.len() ==> out@[k] == rev@[n - 1 - k],
        decreases i,
    {
        i = i - 1;
        out.push(rev[i]);
    }
    proof {
        assert(out@ =~= flipped(rev@));
    }
    out
}

/// The decimal text the result sink writes for a result's gas column: the
/// metered amount, or the sentinel `"0"` when the backend meters no gas.
pub fn gas_text(gas_used: Option<u128>) -> (r: Vec<u8>)
    ensures
        r@ == match gas_used {
            Some(v) => decimal_digits(v as nat),
            None => seq![0x30u8],
        },
{
    match gas_used {
        Some(v) => u128_to_decimal(v),
        None => {
            let mut out: Vec<u8> = Vec::new();
            out.push(0x30);
            proof {
                assert(out@ =~= seq![0x30u8]);
            }
            out
        },
    }
}

} // verus!
