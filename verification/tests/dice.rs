use dice_roller::dice::{ArithmeticError, Dice};
use dice_roller::prng::mersenne_twister::MersenneTwister;
use dice_roller::prng::xorshift_star::XorshiftStar;

#[test]
fn all_shapes_stay_in_range_mersenne() {
    for sides in [4u64, 6, 8, 10, 12, 20, 100] {
        let mut die = Dice::<MersenneTwister>::from_sides(sides);
        for _ in 0..10_000 {
            let r = die.roll();
            assert!(1 <= r && r <= sides);
        }
    }
}

#[test]
fn all_shapes_stay_in_range_xorshift() {
    for sides in [4u64, 6, 8, 10, 12, 20, 100] {
        let mut die = Dice::<XorshiftStar>::from_sides(sides);
        for _ in 0..10_000 {
            let r = die.roll();
            assert!(1 <= r && r <= sides);
        }
    }
}

#[test]
fn factories_set_the_sides_count() {
    assert_eq!(Dice::<XorshiftStar>::d20().sides, 20);
    assert_eq!(Dice::<XorshiftStar>::d12().sides, 12);
    assert_eq!(Dice::<XorshiftStar>::d10().sides, 10);
    assert_eq!(Dice::<XorshiftStar>::d8().sides, 8);
    assert_eq!(Dice::<XorshiftStar>::d6().sides, 6);
    assert_eq!(Dice::<XorshiftStar>::d4().sides, 4);
    assert_eq!(Dice::<XorshiftStar>::d_percent().sides, 100);
    assert_eq!(Dice::<MersenneTwister>::from_sides(7).sides, 7);
}

#[test]
fn one_sided_die_always_rolls_one() {
    let mut die = Dice { sides: 1u64, generator: XorshiftStar::from_seed(9) };
    for _ in 0..100 {
        assert_eq!(die.roll(), 1);
    }
    let mut die = Dice { sides: 1u64, generator: MersenneTwister::from_seed(9) };
    for _ in 0..100 {
        assert_eq!(die.roll(), 1);
    }
}

#[test]
fn zero_sided_die_reports_division_by_zero() {
    let mut die = Dice { sides: 0u64, generator: XorshiftStar::from_seed(3) };
    assert_eq!(die.try_roll(), Err(ArithmeticError::DivisionByZero));
    assert_eq!(die.generator.state, 3);
    let mut die = Dice::<MersenneTwister>::from_sides(0);
    assert_eq!(die.try_roll(), Err(ArithmeticError::DivisionByZero));
}

#[test]
fn five_d6_rolls_with_fixed_xorshift_seed() {
    let mut die = Dice { sides: 6u64, generator: XorshiftStar::from_seed(12345) };
    let rolls: Vec<u64> = (0..5).map(|_| die.roll()).collect();
    assert_eq!(rolls, vec![1, 3, 1, 4, 4]);
}

#[test]
fn d20_rolls_with_fixed_mersenne_seed() {
    let mut die = Dice { sides: 20u64, generator: MersenneTwister::from_seed(12345) };
    let rolls: Vec<u64> = (0..5).map(|_| die.roll()).collect();
    assert_eq!(rolls, vec![9, 12, 16, 5, 20]);
}

#[test]
fn try_roll_agrees_with_roll() {
    let mut checked = Dice { sides: 12u64, generator: XorshiftStar::from_seed(55) };
    let mut unchecked = Dice { sides: 12u64, generator: XorshiftStar::from_seed(55) };
    for _ in 0..50 {
        assert_eq!(checked.try_roll(), Ok(unchecked.roll()));
    }
}
