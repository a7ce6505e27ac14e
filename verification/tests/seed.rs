use starmap::generator::{generate, generate_stars_with_seed};
use starmap::seed::{digit_of, parse_seed, seed_text, MalformedSeed};

fn standard_parse(text: &str) -> Option<u64> {
    u64::from_str_radix(text.strip_prefix("0x").unwrap_or(text), 16).ok()
}

#[test]
fn parse_seed_reads_hexadecimal() {
    assert_eq!(parse_seed("0x1f"), Ok(31));
    assert_eq!(parse_seed("1f"), Ok(31));
    assert_eq!(parse_seed("1F"), Ok(31));
    assert_eq!(parse_seed("0xDEADbeef"), Ok(0xdead_beef));
    assert_eq!(parse_seed("0"), Ok(0));
    assert_eq!(parse_seed("0x0"), Ok(0));
    assert_eq!(parse_seed("0x1"), Ok(1));
    assert_eq!(parse_seed("10"), Ok(16));
    assert_eq!(parse_seed("0b1"), Ok(0xb1));
    assert_eq!(parse_seed("0x123456789abcdef0"), Ok(0x1234_5678_9abc_def0));
}

#[test]
fn parse_seed_at_the_limit() {
    assert_eq!(parse_seed("ffffffffffffffff"), Ok(u64::MAX));
    assert_eq!(parse_seed("0xffffffffffffffff"), Ok(u64::MAX));
    assert_eq!(parse_seed("0xFFFFFFFFFFFFFFFF"), Ok(u64::MAX));
    assert_eq!(parse_seed("0x10000000000000000"), Err(MalformedSeed));
    assert_eq!(parse_seed("fffffffffffffffff"), Err(MalformedSeed));
    assert_eq!(parse_seed("0x0000000000000000000000001"), Ok(1));
    assert_eq!(parse_seed("0x0ffffffffffffffff"), Ok(u64::MAX));
    assert_eq!(parse_seed("0x1000000000000000"), Ok(1 << 60));
    assert_eq!(parse_seed("0x10000000000000000000000000"), Err(MalformedSeed));
}

#[test]
fn parse_seed_takes_a_plus_sign() {
    assert_eq!(parse_seed("+ff"), Ok(255));
    assert_eq!(parse_seed("0x+ff"), Ok(255));
    assert_eq!(parse_seed("+"), Err(MalformedSeed));
    assert_eq!(parse_seed("0x+"), Err(MalformedSeed));
    assert_eq!(parse_seed("++1"), Err(MalformedSeed));
    assert_eq!(parse_seed("+0x1"), Err(MalformedSeed));
}

#[test]
fn parse_seed_rejects_malformed_text() {
    for text in [
        "", "0x", "x", "g", "0xg", "12g4", "-1", "0x-1", " 1", "1 ", "0x 1", "0X1f", "0x0x1",
        "1_000", "0x1.0", "seed", "\u{e9}", "0x\u{663}", "1\n", "#ff", "0o7",
    ] {
        assert_eq!(parse_seed(text), Err(MalformedSeed), "text {:?}", text);
    }
}

#[test]
fn parse_seed_agrees_with_the_standard_parser() {
    let pieces = ["", "0", "x", "0x", "+", "-", "f", "F", "g", "9", "a", " ", "10", "ffffffff"];
    for a in pieces {
        for b in pieces {
            for c in pieces {
                let text = format!("{}{}{}", a, b, c);
                assert_eq!(parse_seed(&text).ok(), standard_parse(&text), "text {:?}", text);
            }
        }
    }
}

#[test]
fn digit_of_every_byte() {
    for byte in 0u8..=255 {
        let expected = (byte as char).to_digit(16).filter(|_| byte < 128).map(|d| d as u8);
        assert_eq!(digit_of(byte), expected);
    }
    assert_eq!(digit_of(b'0'), Some(0));
    assert_eq!(digit_of(b'9'), Some(9));
    assert_eq!(digit_of(b'a'), Some(10));
    assert_eq!(digit_of(b'f'), Some(15));
    assert_eq!(digit_of(b'A'), Some(10));
    assert_eq!(digit_of(b'F'), Some(15));
    assert_eq!(digit_of(b'g'), None);
    assert_eq!(digit_of(b'G'), None);
    assert_eq!(digit_of(b'/'), None);
    assert_eq!(digit_of(b':'), None);
    assert_eq!(digit_of(b'@'), None);
    assert_eq!(digit_of(b'`'), None);
}

#[test]
fn seed_text_writes_hexadecimal() {
    assert_eq!(seed_text(0), "0x0");
    assert_eq!(seed_text(1), "0x1");
    assert_eq!(seed_text(15), "0xf");
    assert_eq!(seed_text(16), "0x10");
    assert_eq!(seed_text(255), "0xff");
    assert_eq!(seed_text(0xdead_beef), "0xdeadbeef");
    assert_eq!(seed_text(0x0123_4567_89ab_cdef), "0x123456789abcdef");
    assert_eq!(seed_text(u64::MAX), "0xffffffffffffffff");
    for seed in [0u64, 9, 10, 4096, 1 << 32, 1 << 63, u64::MAX - 1] {
        assert_eq!(seed_text(seed), format!("{:#x}", seed));
    }
}

#[test]
fn seed_text_round_trip() {
    let mut seed: u64 = 0;
    for _ in 0..2000 {
        assert_eq!(parse_seed(&seed_text(seed)), Ok(seed));
        seed = seed.wrapping_mul(6364136223846793005).wrapping_add(1442695040888963407);
    }
    for shift in 0..64 {
        assert_eq!(parse_seed(&seed_text(1u64 << shift)), Ok(1u64 << shift));
        assert_eq!(parse_seed(&seed_text((1u64 << shift) - 1)), Ok((1u64 << shift) - 1));
    }
    assert_eq!(parse_seed(&seed_text(u64::MAX)), Ok(u64::MAX));
}

#[test]
fn entered_seed_regenerates_the_population() {
    let seed = parse_seed("0x2a").unwrap();
    assert_eq!(seed, 42);
    assert_eq!(generate_stars_with_seed(seed), generate_stars_with_seed(42));
    let shown = seed_text(seed);
    assert_eq!(shown, "0x2a");
    assert_eq!(generate(parse_seed(&shown).unwrap(), 5), generate(42, 5));
}
