//! Weighted selection by a single scan over cumulative weights.
//!
//! A table of relative weights splits the range `0 .. total` into one
//! interval per entry, as wide as the entry's weight. A draw below the
//! total selects the entry whose interval holds it, so that a uniform draw
//! selects each entry with a likelihood of its weight over the total.
//! Weights are relative: the total is whatever they sum to.

use vstd::prelude::*;

verus! {

/// Sum of the first `n` weights.
pub open spec fn prefix_weight(weights: Seq<u64>, n: int) -> int
    decreases n,
{
    if n <= 0 {
        0
    } else {
        prefix_weight(weights, n - 1) + weights[n - 1]
    }
}

/// Sum of all weights.
pub open spec fn total_weight(weights: Seq<u64>) -> int {
    prefix_weight(weights, weights.len() as int)
}

/// The draw falls into the interval of entry `i`.
pub open spec fn selects(weights: Seq<u64>, draw: int, i: int) -> bool {
    &&& 0 <= i < weights.len()
    &&& prefix_weight(weights, i) <= draw < prefix_weight(weights, i + 1)
}

/// The entry that a draw selects, where it is below the total weight.
pub open spec fn selection(weights: Seq<u64>, draw: int) -> Option<int> {
    if 0 <= draw < total_weight(weights) {
        Some(choose|i: int| selects(weights, draw, i))
    } else {
        None
    }
}

/// Prefix sums never shrink as more weights are taken in.
pub proof fn lemma_prefix_weight_monotonic(weights: Seq<u64>, i: int, j: int)
    requires
        0 <= i <= j,
    ensures
        0 <= prefix_weight(weights, i) <= prefix_weight(weights, j),
    decreases j,
{
    if i < j {
        lemma_prefix_weight_monotonic(weights, i, j - 1);
    } else if 0 < i {
        lemma_prefix_weight_monotonic(weights, i - 1, i - 1);
    }
}

/// The intervals of two different entries share no draw.
pub proof fn lemma_selects_unique(weights: Seq<u64>, draw: int, i: int, j: int)
    requires
        selects(weights, draw, i),
        selects(weights, draw, j),
    ensures
        i == j,
{
    if i < j {
        lemma_prefix_weight_monotonic(weights, i + 1, j);
    } else if j < i {
        lemma_prefix_weight_monotonic(weights, j + 1, i);
    }
}

/// Every draw below the total weight falls into some entry's interval.
pub proof fn lemma_selects_exists(weights: Seq<u64>, draw: int, n: int)
    requires
        0 <= n <= weights.len(),
        0 <= draw < prefix_weight(weights, n),
    ensures
        exists|i: int| 0 <= i < n && selects(weights, draw, i),
    decreases n,
{
    if prefix_weight(weights, n - 1) <= draw {
        assert(selects(weights, draw, n - 1));
    } else {
        lemma_selects_exists(weights, draw, n - 1);
    }
}

/// A draw below the total weight selects an entry of the table.
pub proof fn lemma_selection_in_table(weights: Seq<u64>, draw: int)
    ensures
        selection(weights, draw) matches Some(i) ==> selects(weights, draw, i),
        selection(weights, draw) is Some <==> 0 <= draw < total_weight(weights),
{
    if 0 <= draw < total_weight(weights) {
        lemma_selects_exists(weights, draw, weights.len() as int);
    }
}

/// Each entry is selected by exactly as many draws as its weight: by those
/// from the sum of the weights before it up to, and not including, that sum
/// plus its own weight, and by no others. An entry of weight zero is never
/// selected.
pub proof fn lemma_selection_share(weights: Seq<u64>, draw: int, i: int)
    requires
        0 <= i < weights.len(),
    ensures
        selection(weights, draw) == Some(i) <==> prefix_weight(weights, i) <= draw
            < prefix_weight(weights, i) + weights[i],
{
    lemma_prefix_weight_monotonic(weights, 0, i);
    lemma_prefix_weight_monotonic(weights, i + 1, weights.len() as int);
    if 0 <= draw < total_weight(weights) {
        lemma_selects_exists(weights, draw, weights.len() as int);
        let k = choose|k: int| selects(weights, draw, k);
        if selects(weights, draw, i) {
            lemma_selects_unique(weights, draw, i, k);
        }
    }
}

/// Scans the cumulative weights once and returns the entry that `draw`
/// selects, or `None` where the draw is not below the total weight (so
/// always for an empty table, or one of zero weights only).
pub fn pick_weighted(weights: &[u64], draw: u64) -> (picked: Option<usize>)
    ensures
        picked is Some <==> draw < total_weight(weights@),
        picked matches Some(i) ==> selects(weights@, draw as int, i as int),
        (match picked {
            Some(i) => Some(i as int),
            None => None,
        }) == selection(weights@, draw as int),
{
    let mut below: u128 = 0;
    let mut i: usize = 0;
    while i < weights.len()
        invariant
            i <= weights.len(),
            below == prefix_weight(weights@, i as int),
            below <= draw,
        decreases weights.len() - i,
    {
        below = below + weights[i] as u128;
        if (draw as u128) < below {
            proof {
                assert(selects(weights@, draw as int, i as int));
                lemma_prefix_weight_monotonic(weights@, i + 1, weights@.len() as int);
                let k = choose|k: int| selects(weights@, draw as int, k);
                lemma_selects_unique(weights@, draw as int, i as int, k);
            }
            return Some(i);
        }
        i = i + 1;
    }
    None
}

} // verus!
