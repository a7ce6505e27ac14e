//! Planet counts and their relative occurrence.
//!
//! The number of planets of a star follows a normal distribution with mean 7
//! and standard deviation 4, rounded to the nearest whole number, with
//! everything below one half counted as zero. The table holds, for each
//! count, the likelihood of that outcome in parts per billion, so that a
//! count is drawn like a class: by a uniform draw below the sum of the
//! weights and one scan over the table. Counts above 31 have a likelihood
//! under one part per billion and do not occur.

use crate::weighted::{
    lemma_selection_in_table, lemma_selection_share, pick_weighted, prefix_weight, selection,
    total_weight,
};
use vstd::prelude::*;

verus! {

/// The weight of each planet count, from 0 to 31, in parts per billion.
pub const PLANET_WEIGHTS: [u64; 32] = [
    52_081_279,
    32_484_443,
    45_728_795,
    60_492_436,
    75_198_576,
    87_844_704,
    96_431_542,
    99_476_450,
    96_431_542,
    87_844_704,
    75_198_576,
    60_492_436,
    45_728_795,
    32_484_443,
    21_684_918,
    13_603_055,
    8_018_831,
    4_442_027,
    2_312_311,
    1_131_112,
    519_947,
    224_598,
    91_168,
    34_776,
    12_465,
    4_199,
    1_329,
    395,
    110,
    29,
    7,
    2,
];

/// Sum of the planet weights: the bound below which a planet draw is made.
pub const PLANET_WEIGHT_SUM: u64 = 1_000_000_000;

/// The largest planet count that a draw selects.
pub const MAX_PLANETS: u8 = 31;

/// The weights of the planet counts, in table order.
pub open spec fn planet_weights() -> Seq<u64> {
    PLANET_WEIGHTS@
}

/// The planet count that a draw selects: the one whose interval of
/// cumulative weight holds the draw.
pub open spec fn planets_of_draw(draw: u64) -> Option<u8> {
    match selection(planet_weights(), draw as int) {
        Some(i) => Some(i as u8),
        None => None,
    }
}

/// Sum of the first `n` counts, each taken as often as its weight.
pub open spec fn weighted_counts(weights: Seq<u64>, n: int) -> int
    decreases n,
{
    if n <= 0 {
        0
    } else {
        weighted_counts(weights, n - 1) + (n - 1) * weights[n - 1]
    }
}

/// Sum of the squares of the first `n` counts, each taken as often as its
/// weight.
pub open spec fn weighted_squares(weights: Seq<u64>, n: int) -> int
    decreases n,
{
    if n <= 0 {
        0
    } else {
        weighted_squares(weights, n - 1) + (n - 1) * (n - 1) * weights[n - 1]
    }
}

/// The weights sum to one billion.
pub proof fn lemma_planet_weight_sum()
    ensures
        total_weight(planet_weights()) == PLANET_WEIGHT_SUM,
{
    let w = planet_weights();
    reveal_with_fuel(prefix_weight, 2);
    assert(prefix_weight(w, 0) == 0);
    assert(prefix_weight(w, 1) == 52_081_279);
    assert(prefix_weight(w, 2) == 84_565_722);
    assert(prefix_weight(w, 3) == 130_294_517);
    assert(prefix_weight(w, 4) == 190_786_953);
    assert(prefix_weight(w, 5) == 265_985_529);
    assert(prefix_weight(w, 6) == 353_830_233);
    assert(prefix_weight(w, 7) == 450_261_775);
    assert(prefix_weight(w, 8) == 549_738_225);
    assert(prefix_weight(w, 9) == 646_169_767);
    assert(prefix_weight(w, 10) == 734_014_471);
    assert(prefix_weight(w, 11) == 809_213_047);
    assert(prefix_weight(w, 12) == 869_705_483);
    assert(prefix_weight(w, 13) == 915_434_278);
    assert(prefix_weight(w, 14) == 947_918_721);
    assert(prefix_weight(w, 15) == 969_603_639);
    assert(prefix_weight(w, 16) == 983_206_694);
    assert(prefix_weight(w, 17) == 991_225_525);
    assert(prefix_weight(w, 18) == 995_667_552);
    assert(prefix_weight(w, 19) == 997_979_863);
    assert(prefix_weight(w, 20) == 999_110_975);
    assert(prefix_weight(w, 21) == 999_630_922);
    assert(prefix_weight(w, 22) == 999_855_520);
    assert(prefix_weight(w, 23) == 999_946_688);
    assert(prefix_weight(w, 24) == 999_981_464);
    assert(prefix_weight(w, 25) == 999_993_929);
    assert(prefix_weight(w, 26) == 999_998_128);
    assert(prefix_weight(w, 27) == 999_999_457);
    assert(prefix_weight(w, 28) == 999_999_852);
    assert(prefix_weight(w, 29) == 999_999_962);
    assert(prefix_weight(w, 30) == 999_999_991);
    assert(prefix_weight(w, 31) == 999_999_998);
    assert(prefix_weight(w, 32) == 1_000_000_000);
}

/// Over all equally likely draws the planet counts add up to 7,063,799,841
/// and their squares to 64,891,983,137: the mean count lies between 7 and
/// 7.1, and the standard deviation between 3.8 and 4. (With `m` the first
/// sum, `q` the second and `t` the number of draws, the variance is
/// `(q * t - m * m) / (t * t)`.)
pub proof fn lemma_planet_moments()
    ensures
        weighted_counts(planet_weights(), 32) == 7_063_799_841,
        weighted_squares(planet_weights(), 32) == 64_891_983_137,
        ({
            let t = PLANET_WEIGHT_SUM as int;
            let m = weighted_counts(planet_weights(), 32);
            let q = weighted_squares(planet_weights(), 32);
            &&& 7 * t <= m
            &&& 10 * m <= 71 * t
            &&& 38 * 38 * (t * t) <= 100 * (q * t - m * m)
            &&& q * t - m * m <= 4 * 4 * (t * t)
        }),
{
    let w = planet_weights();
    reveal_with_fuel(weighted_counts, 2);
    reveal_with_fuel(weighted_squares, 2);
    assert(weighted_counts(w, 0) == 0);
    assert(weighted_squares(w, 0) == 0);
    assert(weighted_counts(w, 1) == 0);
    assert(weighted_squares(w, 1) == 0);
    assert(weighted_counts(w, 2) == 32_484_443);
    assert(weighted_squares(w, 2) == 32_484_443);
    assert(weighted_counts(w, 3) == 123_942_033);
    assert(weighted_squares(w, 3) == 215_399_623);
    assert(weighted_counts(w, 4) == 305_419_341);
    assert(weighted_squares(w, 4) == 759_831_547);
    assert(weighted_counts(w, 5) == 606_213_645);
    assert(weighted_squares(w, 5) == 1_963_008_763);
    assert(weighted_counts(w, 6) == 1_045_437_165);
    assert(weighted_squares(w, 6) == 4_159_126_363);
    assert(weighted_counts(w, 7) == 1_624_026_417);
    assert(weighted_squares(w, 7) == 7_630_661_875);
    assert(weighted_counts(w, 8) == 2_320_361_567);
    assert(weighted_squares(w, 8) == 12_505_007_925);
    assert(weighted_counts(w, 9) == 3_091_813_903);
    assert(weighted_squares(w, 9) == 18_676_626_613);
    assert(weighted_counts(w, 10) == 3_882_416_239);
    assert(weighted_squares(w, 10) == 25_792_047_637);
    assert(weighted_counts(w, 11) == 4_634_401_999);
    assert(weighted_squares(w, 11) == 33_311_905_237);
    assert(weighted_counts(w, 12) == 5_299_818_795);
    assert(weighted_squares(w, 12) == 40_631_489_993);
    assert(weighted_counts(w, 13) == 5_848_564_335);
    assert(weighted_squares(w, 13) == 47_216_436_473);
    assert(weighted_counts(w, 14) == 6_270_862_094);
    assert(weighted_squares(w, 14) == 52_706_307_340);
    assert(weighted_counts(w, 15) == 6_574_450_946);
    assert(weighted_squares(w, 15) == 56_956_551_268);
    assert(weighted_counts(w, 16) == 6_778_496_771);
    assert(weighted_squares(w, 16) == 60_017_238_643);
    assert(weighted_counts(w, 17) == 6_906_798_067);
    assert(weighted_squares(w, 17) == 62_070_059_379);
    assert(weighted_counts(w, 18) == 6_982_312_526);
    assert(weighted_squares(w, 18) == 63_353_805_182);
    assert(weighted_counts(w, 19) == 7_023_934_124);
    assert(weighted_squares(w, 19) == 64_102_993_946);
    assert(weighted_counts(w, 20) == 7_045_425_252);
    assert(weighted_squares(w, 20) == 64_511_325_378);
    assert(weighted_counts(w, 21) == 7_055_824_192);
    assert(weighted_squares(w, 21) == 64_719_304_178);
    assert(weighted_counts(w, 22) == 7_060_540_750);
    assert(weighted_squares(w, 22) == 64_818_351_896);
    assert(weighted_counts(w, 23) == 7_062_546_446);
    assert(weighted_squares(w, 23) == 64_862_477_208);
    assert(weighted_counts(w, 24) == 7_063_346_294);
    assert(weighted_squares(w, 24) == 64_880_873_712);
    assert(weighted_counts(w, 25) == 7_063_645_454);
    assert(weighted_squares(w, 25) == 64_888_053_552);
    assert(weighted_counts(w, 26) == 7_063_750_429);
    assert(weighted_squares(w, 26) == 64_890_677_927);
    assert(weighted_counts(w, 27) == 7_063_784_983);
    assert(weighted_squares(w, 27) == 64_891_576_331);
    assert(weighted_counts(w, 28) == 7_063_795_648);
    assert(weighted_squares(w, 28) == 64_891_864_286);
    assert(weighted_counts(w, 29) == 7_063_798_728);
    assert(weighted_squares(w, 29) == 64_891_950_526);
    assert(weighted_counts(w, 30) == 7_063_799_569);
    assert(weighted_squares(w, 30) == 64_891_974_915);
    assert(weighted_counts(w, 31) == 7_063_799_779);
    assert(weighted_squares(w, 31) == 64_891_981_215);
    assert(weighted_counts(w, 32) == 7_063_799_841);
    assert(weighted_squares(w, 32) == 64_891_983_137);
    let t = PLANET_WEIGHT_SUM as int;
    let m = weighted_counts(w, 32);
    let q = weighted_squares(w, 32);
    assert(t * t == 1_000_000_000_000_000_000) by (nonlinear_arith)
        requires
            t == 1_000_000_000,
    ;
    assert(m * m == 49_897_268_193_711_625_281) by (nonlinear_arith)
        requires
            m == 7_063_799_841,
    ;
    assert(q * t == 64_891_983_137_000_000_000) by (nonlinear_arith)
        requires
            q == 64_891_983_137,
            t == 1_000_000_000,
    ;
}

/// Of the one billion equally likely draws, each planet count is selected
/// by as many as its weight: by those from the sum of the weights of the
/// smaller counts up to, and not including, that sum plus its own weight.
pub proof fn lemma_planet_share(draw: u64, count: u8)
    requires
        count <= MAX_PLANETS,
    ensures
        planets_of_draw(draw) == Some(count) <==> prefix_weight(planet_weights(), count as int)
            <= draw < prefix_weight(planet_weights(), count as int) + PLANET_WEIGHTS[count as int],
{
    lemma_selection_share(planet_weights(), draw as int, count as int);
    lemma_selection_in_table(planet_weights(), draw as int);
}

/// The planet count for a draw below the sum of the planet weights, by one
/// scan over the cumulative weights; `None` for any other draw.
pub fn planets_for_draw(draw: u64) -> (planets: Option<u8>)
    ensures
        planets == planets_of_draw(draw),
        planets is Some <==> draw < PLANET_WEIGHT_SUM,
        planets matches Some(count) ==> count <= MAX_PLANETS,
{
    proof {
        lemma_planet_weight_sum();
    }
    match pick_weighted(PLANET_WEIGHTS.as_slice(), draw) {
        Some(i) => Some(i as u8),
        None => None,
    }
}

} // verus!
