//! The star generator.
//!
//! A population of stars is a function of a 64-bit seed and of a count: the
//! seed sets the pseudo-random generator, and each star takes five draws
//! from it in a fixed order: its name, its class, its planet count, and the
//! two coordinates of its position. Every draw is a whole number, and what a
//! star holds is computed from the draws in whole numbers, so that a seed
//! gives the same population wherever it is generated.

pub mod classes;
pub mod names;
pub mod planets;

use crate::random::{
    choose_from, draw_below, fresh_seed, index_draw, range_draw, rng_state, seeded_rng,
    seeded_state,
};
use classes::{class_for_draw, class_of_draw, is_class, CLASS_WEIGHT_SUM};
use names::NAMES;
use planets::{planets_for_draw, planets_of_draw, MAX_PLANETS, PLANET_WEIGHT_SUM};
use rand::rngs::StdRng;
use vstd::prelude::*;

verus! {

/// The size of a full population, and the largest count that can be asked
/// for.
pub const AMOUNT: usize = 512;

/// The denominator of a coordinate: a position `(x, y)` stands for the point
/// `(x / COORD_SCALE, y / COORD_SCALE)` of the unit square. The scale is
/// 2 to the power of 53, so that a coordinate converts to a double without
/// rounding.
pub const COORD_SCALE: u64 = 9_007_199_254_740_992;

/// One generated star.
#[derive(Debug, Clone, Copy, PartialEq, Eq)]
pub struct Star {
    /// A name of the pool; two stars may share one.
    pub name: &'static str,
    /// The letter of the spectral class.
    pub class: char,
    /// The number of planets.
    pub planets: u8,
    /// The position in the unit square, each coordinate as a numerator over
    /// `COORD_SCALE`.
    pub cords: (u64, u64),
}

impl Star {
    /// What holds of every generated star: the name is one of the pool, the
    /// class one of the seven, the planet count within the table, and both
    /// coordinates are below the scale, so the position lies in the unit
    /// square with the upper edges left out.
    pub open spec fn is_valid(self) -> bool {
        &&& exists|i: int| 0 <= i < NAMES@.len() && NAMES[i] == self.name
        &&& is_class(self.class)
        &&& self.planets <= MAX_PLANETS
        &&& self.cords.0 < COORD_SCALE
        &&& self.cords.1 < COORD_SCALE
    }

    /// The star that five draws give, where each is in its range.
    pub open spec fn of_draws(
        name_index: int,
        class_draw: u64,
        planet_draw: u64,
        x: u64,
        y: u64,
    ) -> Option<Star> {
        if 0 <= name_index < NAMES@.len() && class_draw < CLASS_WEIGHT_SUM && planet_draw
            < PLANET_WEIGHT_SUM && x < COORD_SCALE && y < COORD_SCALE {
            Some(
                Star {
                    name: NAMES[name_index],
                    class: class_of_draw(class_draw).unwrap(),
                    planets: planets_of_draw(planet_draw).unwrap(),
                    cords: (x, y),
                },
            )
        } else {
            None
        }
    }

    /// Assembles a star from its five draws: the index of its name in the
    /// pool, the draws for its class and its planet count, and its
    /// coordinates. `None` where a draw is out of its range.
    pub fn from_draws(name_index: usize, class_draw: u64, planet_draw: u64, x: u64, y: u64) -> (star:
        Option<Star>)
        ensures
            star == Star::of_draws(name_index as int, class_draw, planet_draw, x, y),
            star is Some <==> name_index < NAMES@.len() && class_draw < CLASS_WEIGHT_SUM
                && planet_draw < PLANET_WEIGHT_SUM && x < COORD_SCALE && y < COORD_SCALE,
            star matches Some(s) ==> s.is_valid(),
    {
        if name_index >= NAMES.len() || x >= COORD_SCALE || y >= COORD_SCALE {
            return None;
        }
        match (class_for_draw(class_draw), planets_for_draw(planet_draw)) {
            (Some(class), Some(planets)) => Some(
                Star { name: NAMES[name_index], class, planets, cords: (x, y) },
            ),
            _ => None,
        }
    }
}

/// The star that a generator in the given state yields, and the state that
/// the five draws leave: the name first, then the class, the planet count,
/// and the two coordinates.
pub open spec fn drawn_star(state: Seq<u64>) -> (Star, Seq<u64>) {
    let name = index_draw(state, NAMES@.len());
    let class = range_draw(name.1, CLASS_WEIGHT_SUM);
    let planets = range_draw(class.1, PLANET_WEIGHT_SUM);
    let x = range_draw(planets.1, COORD_SCALE);
    let y = range_draw(x.1, COORD_SCALE);
    (Star::of_draws(name.0 as int, class.0, planets.0, x.0, y.0).unwrap(), y.1)
}

/// The state of a generator that started in `state` and has yielded `n`
/// stars.
pub open spec fn state_after(state: Seq<u64>, n: nat) -> Seq<u64>
    decreases n,
{
    if n == 0 {
        state
    } else {
        drawn_star(state_after(state, (n - 1) as nat)).1
    }
}

/// The population of `count` stars that belongs to a seed: star `i` is the
/// one that the seeded generator yields after `i` others.
pub open spec fn generated(seed: u64, count: nat) -> Seq<Star> {
    Seq::new(count, |i: int| drawn_star(state_after(seeded_state(seed), i as nat)).0)
}

/// Draws one star from the generator.
pub fn generate_star(rng: &mut StdRng) -> (star: Star)
    ensures
        star == drawn_star(rng_state(*old(rng))).0,
        rng_state(*final(rng)) == drawn_star(rng_state(*old(rng))).1,
        star.is_valid(),
{
    let ghost start = rng_state(*rng);
    let name: &'static str = choose_from(rng, NAMES.as_slice()).unwrap();
    let class_draw: u64 = draw_below(rng, CLASS_WEIGHT_SUM);
    let planet_draw: u64 = draw_below(rng, PLANET_WEIGHT_SUM);
    let x: u64 = draw_below(rng, COORD_SCALE);
    let y: u64 = draw_below(rng, COORD_SCALE);
    let class: char = class_for_draw(class_draw).unwrap();
    let planets: u8 = planets_for_draw(planet_draw).unwrap();
    let star = Star { name, class, planets, cords: (x, y) };
    proof {
        assert(NAMES[index_draw(start, NAMES@.len()).0 as int] == star.name);
    }
    star
}

/// Generates the first `count` stars of the population that belongs to
/// `seed`; the count is at most `AMOUNT`. Equal arguments give equal
/// populations, star by star and field by field; a smaller count gives the
/// beginning of what a larger one gives. Every star is valid: in
/// particular both of its coordinates are below `COORD_SCALE`.
pub fn generate(seed: u64, count: u32) -> (stars: Vec<Star>)
    requires
        count <= AMOUNT,
    ensures
        stars@ == generated(seed, count as nat),
        stars@.len() == count,
        forall|i: int| 0 <= i < stars@.len() ==> (#[trigger] stars@[i]).is_valid(),
{
    let mut rng = seeded_rng(seed);
    let mut stars: Vec<Star> = Vec::with_capacity(count as usize);
    let mut made: u32 = 0;
    while made < count
        invariant
            made <= count,
            stars@ == generated(seed, made as nat),
            rng_state(rng) == state_after(seeded_state(seed), made as nat),
            forall|i: int| 0 <= i < stars@.len() ==> (#[trigger] stars@[i]).is_valid(),
        decreases count - made,
    {
        let star = generate_star(&mut rng);
        stars.push(star);
        made = made + 1;
        assert(stars@ =~= generated(seed, made as nat));
    }
    stars
}

/// Generates the full population of `AMOUNT` stars that belongs to `seed`.
pub fn generate_stars_with_seed(seed: u64) -> (stars: Vec<Star>)
    ensures
        stars@ == generated(seed, AMOUNT as nat),
        stars@.len() == AMOUNT,
        forall|i: int| 0 <= i < stars@.len() ==> (#[trigger] stars@[i]).is_valid(),
{
    generate(seed, AMOUNT as u32)
}

/// Takes a fresh seed from the operating system's randomness and generates
/// the full population that belongs to it. The seed comes back with the
/// stars: `generate_stars_with_seed` gives the same stars for it again.
pub fn generate_stars() -> (made: (Vec<Star>, u64))
    ensures
        made.0@ == generated(made.1, AMOUNT as nat),
        made.0@.len() == AMOUNT,
        forall|i: int| 0 <= i < made.0@.len() ==> (#[trigger] made.0@[i]).is_valid(),
{
    let seed: u64 = fresh_seed();
    let stars = generate_stars_with_seed(seed);
    (stars, seed)
}

/// Generation is a function of the seed and the count: two populations
/// generated for the same seed and the same count are the same sequence,
/// star by star and field by field.
pub proof fn lemma_generation_deterministic(
    seed: u64,
    count: nat,
    first: Seq<Star>,
    second: Seq<Star>,
)
    requires
        first == generated(seed, count),
        second == generated(seed, count),
    ensures
        first == second,
        first.len() == count,
        forall|i: int|
            0 <= i < count ==> {
                &&& (#[trigger] first[i]).name == second[i].name
                &&& first[i].class == second[i].class
                &&& first[i].planets == second[i].planets
                &&& first[i].cords == second[i].cords
            },
{
}

/// A population of fewer stars is the beginning of every larger population
/// of the same seed: to show the first stars of a full population is to
/// show the population of that count.
pub proof fn lemma_generation_prefix(seed: u64, fewer: nat, more: nat)
    requires
        fewer <= more,
    ensures
        generated(seed, fewer) == generated(seed, more).take(fewer as int),
{
    assert(generated(seed, fewer) =~= generated(seed, more).take(fewer as int));
}

/// The stars of a population come from one generator in sequence: star `i`
/// is drawn in the state that the draws of the stars before it left.
pub proof fn lemma_generation_step(seed: u64, count: nat, i: nat)
    requires
        i + 1 < count,
    ensures
        generated(seed, count)[i as int] == drawn_star(state_after(seeded_state(seed), i)).0,
        generated(seed, count)[i as int + 1] == drawn_star(
            drawn_star(state_after(seeded_state(seed), i)).1,
        ).0,
{
    assert(state_after(seeded_state(seed), (i + 1) as nat) == drawn_star(
        state_after(seeded_state(seed), i),
    ).1);
}

} // verus!
