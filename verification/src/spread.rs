//! The dense/spread encoding.
//!
//! A "dense" value is an ordinary bit-string; its "spread" counterpart moves
//! every bit two positions apart, interleaving zero bits between them: bit
//! `i` of the dense value becomes bit `2*i` of the spread value.  Pairing
//! each dense witness with its spread form lets bitwise operations be
//! constrained with plain field arithmetic plus a membership check against a
//! fixed table of `(dense, spread)` rows.

use vstd::prelude::*;
use vstd::arithmetic::power2::pow2;
use vstd::arithmetic::power2::lemma_pow2_unfold;
use vstd::arithmetic::power2::lemma_pow2_adds;
use vstd::arithmetic::power2::lemma_pow2_pos;

verus! {

/// The spread form of `x`: every bit of `x` moved two positions apart, so
/// that bit `i` of `x` lands at bit `2*i` of the result, with zero bits in
/// between.  Peeling off the low bit: `spread(2*q + b) == 4*spread(q) + b`.
pub open spec fn spread_spec(x: nat) -> nat
    decreases x,
{
    if x == 0 {
        0
    } else {
        4 * spread_spec(x / 2) + x % 2
    }
}

/// The spread of a `k`-bit value fits in `2*k` bits.
pub proof fn lemma_spread_bound(x: nat, k: nat)
    requires
        x < pow2(k),
    ensures
        spread_spec(x) < pow2(2 * k),
    decreases k,
{
    if x == 0 {
        lemma_pow2_pos(2 * k);
    } else {
        vstd::arithmetic::power2::lemma2_to64();
        assert(k > 0);
        lemma_pow2_unfold(k);
        lemma_spread_bound(x / 2, (k - 1) as nat);
        lemma_pow2_adds(2, (2 * k - 2) as nat);
        lemma_pow2_unfold(2);
        lemma_pow2_unfold(1);
    }
}

/// Computes the spread form of a 16-bit dense value.
pub fn spread_bits(x: u16) -> (r: u32)
    ensures
        r == spread_spec(x as nat),
    decreases x,
{
    proof {
        vstd::arithmetic::power2::lemma2_to64();
        lemma_spread_bound((x / 2) as nat, 15);
    }
    if x == 0 {
        0
    } else {
        4 * spread_bits(x / 2) + (x % 2) as u32
    }
}

/// Checks that `spread` really is the spread form of `dense`: the relation
/// the dense/spread lookup table enforces, so a pair for which this returns
/// `false` would be rejected by the lookup argument.
pub fn is_valid_spread_pair(dense: u16, spread: u32) -> (r: bool)
    ensures
        r == (spread == spread_spec(dense as nat)),
{
    spread_bits(dense) == spread
}

/// Builds the rows of the dense/spread lookup table for `num_bits`-bit dense
/// values: row `d` holds the pair `(d, spread(d))`.
pub fn build_spread_table(num_bits: usize) -> (rows: Vec<(u16, u32)>)
    requires
        num_bits <= 16,
    ensures
        rows@.len() == pow2(num_bits as nat),
        forall|d: int| 0 <= d < rows@.len() ==> #[trigger] rows@[d] == (d as u16, spread_spec(
            d as nat,
        ) as u32),
{
    proof {
        vstd::arithmetic::power2::lemma2_to64();
        vstd::bits::lemma_usize_pow2_no_overflow(num_bits as nat);
        vstd::bits::lemma_usize_shl_is_mul(1usize, num_bits as usize);
        if num_bits < 16 {
            vstd::arithmetic::power2::lemma_pow2_strictly_increases(num_bits as nat, 16);
        }
    }
    let count: usize = 1usize << num_bits;
    let mut rows: Vec<(u16, u32)> = Vec::new();
    let mut d: usize = 0;
    while d < count
        invariant
            count == pow2(num_bits as nat),
            count <= 0x1_0000,
            d <= count,
            rows@.len() == d,
            forall|j: int| 0 <= j < d ==> #[trigger] rows@[j] == (j as u16, spread_spec(
                j as nat,
            ) as u32),
        decreases count - d,
    {
        proof {
            vstd::arithmetic::power2::lemma2_to64();
            lemma_spread_bound(d as nat, 16);
        }
        let s: u32 = spread_bits(d as u16);
        rows.push((d as u16, s));
        d = d + 1;
    }
    rows
}

} // verus!
