//! Spectral classes and their relative occurrence.

use crate::weighted::{
    lemma_selection_share, pick_weighted, prefix_weight, selection, total_weight,
};
use vstd::prelude::*;

verus! {

/// The seven classes of the Harvard classification, from the rarest to the
/// commonest, each with its relative weight in units of one hundred
/// thousandth: `O` 0.00003, `B` 0.12, `A` 0.61, `F` 3.0, `G` 7.6, `K` 12.0,
/// `M` 76.0. The weights are relative and do not sum to a round total.
pub const STARCLASSES: [(char, u64); 7] = [
    ('O', 3),
    ('B', 12_000),
    ('A', 61_000),
    ('F', 300_000),
    ('G', 760_000),
    ('K', 1_200_000),
    ('M', 7_600_000),
];

/// Sum of the class weights: the bound below which a class draw is made.
pub const CLASS_WEIGHT_SUM: u64 = 9_933_003;

/// The weights of the classes, in table order.
pub open spec fn class_weights() -> Seq<u64> {
    Seq::new(7, |i: int| STARCLASSES[i].1)
}

/// The letter is that of one of the seven classes.
pub open spec fn is_class(letter: char) -> bool {
    exists|i: int| 0 <= i < 7 && STARCLASSES[i].0 == letter
}

/// The class that a draw selects: the one whose interval of cumulative
/// weight holds the draw.
pub open spec fn class_of_draw(draw: u64) -> Option<char> {
    match selection(class_weights(), draw as int) {
        Some(i) => Some(STARCLASSES[i].0),
        None => None,
    }
}

/// The cumulative weights of the class table.
pub proof fn lemma_class_prefix_weights()
    ensures
        prefix_weight(class_weights(), 0) == 0,
        prefix_weight(class_weights(), 1) == 3,
        prefix_weight(class_weights(), 2) == 12_003,
        prefix_weight(class_weights(), 3) == 73_003,
        prefix_weight(class_weights(), 4) == 373_003,
        prefix_weight(class_weights(), 5) == 1_133_003,
        prefix_weight(class_weights(), 6) == 2_333_003,
        prefix_weight(class_weights(), 7) == 9_933_003,
        total_weight(class_weights()) == CLASS_WEIGHT_SUM,
{
    reveal_with_fuel(prefix_weight, 8);
}

/// Of the 9,933,003 equally likely draws, each class is selected by as many
/// as its weight: the share of a class among the stars is its weight over
/// the sum of the weights.
pub proof fn lemma_class_share(draw: u64)
    ensures
        class_of_draw(draw) == Some('O') <==> draw < 3,
        class_of_draw(draw) == Some('B') <==> 3 <= draw < 12_003,
        class_of_draw(draw) == Some('A') <==> 12_003 <= draw < 73_003,
        class_of_draw(draw) == Some('F') <==> 73_003 <= draw < 373_003,
        class_of_draw(draw) == Some('G') <==> 373_003 <= draw < 1_133_003,
        class_of_draw(draw) == Some('K') <==> 1_133_003 <= draw < 2_333_003,
        class_of_draw(draw) == Some('M') <==> 2_333_003 <= draw < 9_933_003,
        class_of_draw(draw) is None <==> CLASS_WEIGHT_SUM <= draw,
        class_of_draw(draw) matches Some(letter) ==> is_class(letter),
{
    lemma_class_prefix_weights();
    let w = class_weights();
    lemma_selection_share(w, draw as int, 0);
    lemma_selection_share(w, draw as int, 1);
    lemma_selection_share(w, draw as int, 2);
    lemma_selection_share(w, draw as int, 3);
    lemma_selection_share(w, draw as int, 4);
    lemma_selection_share(w, draw as int, 5);
    lemma_selection_share(w, draw as int, 6);
}

/// The class for a draw below the sum of the class weights, by one scan
/// over the cumulative weights; `None` for any other draw.
pub fn class_for_draw(draw: u64) -> (class: Option<char>)
    ensures
        class == class_of_draw(draw),
        class is Some <==> draw < CLASS_WEIGHT_SUM,
        class matches Some(letter) ==> is_class(letter),
{
    let weights: [u64; 7] = [
        STARCLASSES[0].1,
        STARCLASSES[1].1,
        STARCLASSES[2].1,
        STARCLASSES[3].1,
        STARCLASSES[4].1,
        STARCLASSES[5].1,
        STARCLASSES[6].1,
    ];
    proof {
        assert(weights@ =~= class_weights());
        lemma_class_share(draw);
    }
    match pick_weighted(weights.as_slice(), draw) {
        Some(i) => Some(STARCLASSES[i].0),
        None => None,
    }
}

} // verus!
