use dice_roller::prng::mersenne_twister::{MersenneTwister, LOWER_MASK, STATE_VECTOR_LENGTH};
use dice_roller::prng::xorshift_star::XorshiftStar;
use dice_roller::prng::{get_time_seed, PRNG};

#[test]
fn xorshift_known_sequence() {
    let mut g = XorshiftStar::from_seed(12345);
    let expected: [u64; 5] = [
        10977518812293740004,
        13893246733018840292,
        1412386850724336324,
        13578198927181985541,
        2204759546661399375,
    ];
    for e in expected {
        assert_eq!(g.next(), e);
    }
}

#[test]
fn xorshift_reproducible_across_runs() {
    let mut a = XorshiftStar::from_seed(777);
    let mut b = XorshiftStar::from_seed(777);
    for _ in 0..1000 {
        assert_eq!(a.next(), b.next());
        assert_eq!(a.state, b.state);
    }
}

#[test]
fn xorshift_zero_seed_is_a_fixed_point() {
    let mut g = XorshiftStar::from_seed(0);
    for _ in 0..10 {
        assert_eq!(g.next(), 0);
        assert_eq!(g.state, 0);
    }
}

#[test]
fn mersenne_known_sequence() {
    let mut g = MersenneTwister::from_seed(12345);
    let expected: [u64; 6] = [
        901042348,
        900026951,
        1670810895,
        486402104,
        929257539,
        2145485824,
    ];
    for e in expected {
        assert_eq!(g.next(), e);
    }
}

#[test]
fn mersenne_seed_zero_sequence() {
    let mut g = MersenneTwister::from_seed(0);
    assert_eq!(g.next(), 199973289);
    assert_eq!(g.next(), 1011556180);
    assert_eq!(g.next(), 1847502817);
}

#[test]
fn mersenne_output_is_masked_to_31_bits() {
    let mut g = MersenneTwister::from_seed(31415);
    for _ in 0..1000 {
        assert!(g.next() <= LOWER_MASK);
    }
}

#[test]
fn mersenne_one_twist_per_block() {
    let mut g = MersenneTwister::from_seed(1);
    assert_eq!(g.index, STATE_VECTOR_LENGTH);
    g.next();
    assert_eq!(g.index, 1);
    let table_after_first_twist = g.mt_table;
    for k in 2..=STATE_VECTOR_LENGTH {
        g.next();
        assert_eq!(g.index, k);
        assert_eq!(g.mt_table, table_after_first_twist);
    }
    assert_eq!(g.index, STATE_VECTOR_LENGTH);
    g.next();
    assert_eq!(g.index, 1);
    assert_ne!(g.mt_table, table_after_first_twist);
}

#[test]
fn mersenne_twist_is_deterministic() {
    let mut a = MersenneTwister::from_seed(42);
    let mut b = MersenneTwister::from_seed(42);
    assert_eq!(a.mt_table, b.mt_table);
    a.twist();
    b.twist();
    assert_eq!(a.mt_table, b.mt_table);
    assert_eq!(a.index, 0);
    a.twist();
    b.twist();
    assert_eq!(a.mt_table, b.mt_table);
}

#[test]
fn next_min_max_follows_modulo_formula() {
    let triples: [(u64, u64, u64); 5] = [
        (99, 3, 10),
        (7, 0, 1),
        (123456789, 1, 21),
        (u64::MAX, 10, 1000),
        (2, 0, u64::MAX),
    ];
    for (seed, min, max) in triples {
        let mut raw = XorshiftStar::from_seed(seed);
        let mut bounded = XorshiftStar::from_seed(seed);
        let r = raw.next();
        let v = bounded.next_min_max(min, max);
        assert_eq!(v, min + r % (max - min));
        assert!(min <= v && v < max);

        let mut raw = MersenneTwister::from_seed(seed);
        let mut bounded = MersenneTwister::from_seed(seed);
        let r = raw.next();
        let v = bounded.next_min_max(min, max);
        assert_eq!(v, min + r % (max - min));
        assert!(min <= v && v < max);
    }
}

#[test]
fn next_max_follows_modulo_formula() {
    let mut raw = XorshiftStar::from_seed(6502);
    let mut bounded = XorshiftStar::from_seed(6502);
    let r = raw.next();
    let v = bounded.next_max(17);
    assert_eq!(v, r % 17);
}

#[test]
fn time_seed_is_after_the_epoch() {
    assert!(get_time_seed() > 0);
}

#[test]
fn time_seeded_generators_produce_output() {
    let mut m = MersenneTwister::new();
    assert!(m.next() <= LOWER_MASK);
    let mut x = XorshiftStar::new();
    x.next();
}
