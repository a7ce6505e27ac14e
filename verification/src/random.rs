//! The pseudo-random generator behind every draw.
//!
//! The generator is `rand`'s `StdRng`, seeded from a 64-bit value. Nothing in
//! this file is proved: each item states what `rand` does, and the rest of
//! the library is verified against these statements. A draw is a function of
//! the generator's state and of the draw's arguments, so each draw has a name
//! that stands for its outcome: the value drawn, and the state that the
//! generator is left in.

use rand::rngs::StdRng;
use vstd::prelude::*;

verus! {

/// `rand::rngs::StdRng`, whose state is private to `rand`.
#[verifier::external_type_specification]
#[verifier::external_body]
pub struct ExStdRng(StdRng);

/// The internal state of a generator, on which alone its next outputs
/// depend.
pub uninterp spec fn rng_state(rng: StdRng) -> Seq<u64>;

/// The state in which `StdRng::seed_from_u64` creates a generator.
pub uninterp spec fn seeded_state(seed: u64) -> Seq<u64>;

/// What `Rng::gen_range(0..bound)` draws from a generator in the given
/// state, with the state that it leaves.
pub uninterp spec fn range_draw(state: Seq<u64>, bound: u64) -> (u64, Seq<u64>);

/// The index of the item that `SliceRandom::choose` takes from a slice of
/// the given length with a generator in the given state, with the state
/// that it leaves.
pub uninterp spec fn index_draw(state: Seq<u64>, len: nat) -> (nat, Seq<u64>);

/// Calls `StdRng::seed_from_u64`, which expands the seed to the generator's
/// key by a fixed procedure: equal seeds give generators in equal states.
#[verifier::external_body]
pub(crate) fn seeded_rng(seed: u64) -> (rng: StdRng)
    ensures
        rng_state(rng) == seeded_state(seed),
{
    rand::SeedableRng::seed_from_u64(seed)
}

/// Calls `Rng::gen_range` on `0..bound`. The range must not be empty. The
/// value lies in the range; it and the state left behind depend on the
/// state before the call and on the bound alone.
#[verifier::external_body]
pub(crate) fn draw_below(rng: &mut StdRng, bound: u64) -> (drawn: u64)
    requires
        0 < bound,
    ensures
        drawn < bound,
        drawn == range_draw(rng_state(*old(rng)), bound).0,
        rng_state(*final(rng)) == range_draw(rng_state(*old(rng)), bound).1,
{
    rand::Rng::gen_range(rng, 0..bound)
}

/// Calls `SliceRandom::choose` on the pool. An empty pool gives `None` and
/// leaves the generator untouched. Otherwise the item at a drawn index
/// comes back; the index and the state left behind depend on the state
/// before the call and on the pool's length alone.
#[verifier::external_body]
pub(crate) fn choose_from(rng: &mut StdRng, pool: &[&'static str]) -> (chosen: Option<
    &'static str,
>)
    ensures
        pool@.len() == 0 ==> chosen is None && rng_state(*final(rng)) == rng_state(*old(rng)),
        pool@.len() > 0 ==> index_draw(rng_state(*old(rng)), pool@.len()).0 < pool@.len(),
        pool@.len() > 0 ==> chosen == Some(
            pool@[index_draw(rng_state(*old(rng)), pool@.len()).0 as int],
        ),
        pool@.len() > 0 ==> rng_state(*final(rng)) == index_draw(
            rng_state(*old(rng)),
            pool@.len(),
        ).1,
{
    rand::seq::SliceRandom::choose(pool, rng).copied()
}

/// Calls `rand::random`, which draws from the thread's generator, seeded by
/// the operating system: nothing is known of the value.
#[verifier::external_body]
pub(crate) fn fresh_seed() -> (seed: u64) {
    rand::random()
}

} // verus!
