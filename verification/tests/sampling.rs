use rand::rngs::StdRng;
use rand::seq::SliceRandom;
use rand::SeedableRng;
use rand_distr::{Distribution, Normal};
use starmap::generator::classes::{class_for_draw, CLASS_WEIGHT_SUM, STARCLASSES};
use starmap::generator::generate_stars_with_seed;
use starmap::generator::planets::{PLANET_WEIGHTS, PLANET_WEIGHT_SUM};

#[test]
fn planet_table_agrees_with_rounded_normal_samples() {
    let normal = Normal::new(7.0f32, 4.0f32).unwrap();
    let mut rng = StdRng::seed_from_u64(2024);
    let samples = 1_000_000usize;
    let mut hits = [0usize; 256];
    for _ in 0..samples {
        let count = normal.sample(&mut rng).round() as u8;
        hits[count as usize] += 1;
    }
    for count in 0..256 {
        let expected = if count < 32 {
            PLANET_WEIGHTS[count] as f64 / PLANET_WEIGHT_SUM as f64
        } else {
            0.0
        };
        let found = hits[count] as f64 / samples as f64;
        assert!(
            (found - expected).abs() < 0.002,
            "count {}: {} for {}",
            count,
            found,
            expected
        );
    }
}

#[test]
fn generated_planets_agree_with_the_table() {
    let mut hits = [0usize; 32];
    let mut total = 0usize;
    for seed in 5000u64..5400 {
        for star in generate_stars_with_seed(seed) {
            hits[star.planets as usize] += 1;
            total += 1;
        }
    }
    for count in 0..32 {
        let expected = PLANET_WEIGHTS[count] as f64 / PLANET_WEIGHT_SUM as f64;
        let found = hits[count] as f64 / total as f64;
        assert!(
            (found - expected).abs() < 0.004,
            "count {}: {} for {}",
            count,
            found,
            expected
        );
    }
}

#[test]
fn class_shares_agree_with_weighted_choice_over_fractions() {
    let fractions = [
        ('O', 0.00003f64),
        ('B', 0.12),
        ('A', 0.61),
        ('F', 3.0),
        ('G', 7.6),
        ('K', 12.0),
        ('M', 76.0),
    ];
    let mut rng = StdRng::seed_from_u64(77);
    let samples = 500_000usize;
    let mut hits = [0usize; 7];
    for _ in 0..samples {
        let chosen = fractions.choose_weighted(&mut rng, |c| c.1).unwrap().0;
        let i = STARCLASSES.iter().position(|c| c.0 == chosen).unwrap();
        hits[i] += 1;
    }
    for i in 0..7 {
        let expected = STARCLASSES[i].1 as f64 / CLASS_WEIGHT_SUM as f64;
        let found = hits[i] as f64 / samples as f64;
        assert!(
            (found - expected).abs() < 0.003,
            "class {}: {} for {}",
            STARCLASSES[i].0,
            found,
            expected
        );
    }
}

#[test]
fn class_draws_cover_each_class_with_its_weight() {
    let mut below = 0u64;
    for (letter, weight) in STARCLASSES.iter() {
        assert_eq!(class_for_draw(below), Some(*letter));
        assert_eq!(class_for_draw(below + weight - 1), Some(*letter));
        below += weight;
    }
    assert_eq!(below, CLASS_WEIGHT_SUM);
    let mut hits = [0u64; 7];
    let mut draw = 0u64;
    while draw < CLASS_WEIGHT_SUM {
        let letter = class_for_draw(draw).unwrap();
        let i = STARCLASSES.iter().position(|c| c.0 == letter).unwrap();
        hits[i] += 1;
        draw += 1;
    }
    for i in 0..7 {
        assert_eq!(hits[i], STARCLASSES[i].1);
    }
}
