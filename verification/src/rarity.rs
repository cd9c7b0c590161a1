use vstd::prelude::*;
use crate::error::GachaError;

verus! {

/// Sum of the first `n` weights.
pub open spec fn weight_prefix(w: Seq<u16>, n: int) -> int
    decreases n,
{
    if n <= 0 {
        0
    } else {
        weight_prefix(w, n - 1) + w[n - 1]
    }
}

/// Sum of the four weights.
pub open spec fn weight_total(w: Seq<u16>) -> int {
    weight_prefix(w, 4)
}

/// Weights the draw accepts: their sum is positive and fits in a `u16`.
pub open spec fn weights_drawable(w: Seq<u16>) -> bool {
    &&& w.len() == 4
    &&& 0 < weight_total(w) <= u16::MAX
}

/// The rarity whose band of cumulative weights holds `roll`; 3 past the last band.
pub open spec fn rarity_for_roll(w: Seq<u16>, roll: int) -> int {
    if roll < weight_prefix(w, 1) {
        0
    } else if roll < weight_prefix(w, 2) {
        1
    } else if roll < weight_prefix(w, 3) {
        2
    } else {
        3
    }
}

/// The rarity that a random byte draws: its residue modulo the total weight
/// picks the band it falls in.
pub open spec fn drawn_rarity(byte: u8, w: Seq<u16>) -> int {
    rarity_for_roll(w, byte as int % weight_total(w))
}

/// Draws a rarity index from one random byte, by the weights of the four rarities.
pub fn draw_rarity(byte: u8, weights: &[u16; 4]) -> (r: Result<usize, GachaError>)
    requires
        weights_drawable(weights@),
    ensures
        r == Ok::<usize, GachaError>(drawn_rarity(byte, weights@) as usize),
{
    let ghost w = weights@;
    let mut total: u16 = 0;
    let mut k: usize = 0;
    while k < 4
        invariant
            0 <= k <= 4,
            w == weights@,
            weights_drawable(w),
            total == weight_prefix(w, k as int),
        decreases 4 - k,
    {
        proof {
            assert(weight_prefix(w, k + 1) == weight_prefix(w, k as int) + w[k as int]);
            lemma_prefix_monotone(w, k + 1, 4);
        }
        total = total + weights[k];
        k = k + 1;
    }
    let roll: u16 = (byte as u16) % total;
    let mut acc: u16 = 0;
    let mut i: usize = 0;
    while i < 4
        invariant
            0 <= i <= 4,
            w == weights@,
            weights_drawable(w),
            total as int == weight_total(w),
            roll as int == byte as int % weight_total(w),
            acc == weight_prefix(w, i as int),
            roll >= acc,
        decreases 4 - i,
    {
        proof {
            assert(weight_prefix(w, i + 1) == weight_prefix(w, i as int) + w[i as int]);
            lemma_prefix_monotone(w, i + 1, 4);
        }
        acc = acc + weights[i];
        if roll < acc {
            proof {
                if i >= 1 {
                    lemma_prefix_monotone(w, 1, i as int);
                }
                if i >= 2 {
                    lemma_prefix_monotone(w, 2, i as int);
                }
                if i >= 3 {
                    lemma_prefix_monotone(w, 3, i as int);
                }
            }
            return Ok(i);
        }
        i = i + 1;
    }
    Ok(3)
}

/// Prefix sums of weights do not decrease.
pub proof fn lemma_prefix_monotone(w: Seq<u16>, a: int, b: int)
    requires
        0 <= a <= b <= w.len(),
    ensures
        weight_prefix(w, a) <= weight_prefix(w, b),
    decreases b - a,
{
    if a < b {
        lemma_prefix_monotone(w, a, b - 1);
    }
}

} // verus!
