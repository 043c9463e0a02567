use vstd::prelude::*;

use crate::prng::PRNG;

verus! {

/// The failure a roll can run into: the bounded-range mapping divides by
/// the width of its range, and a zero-sided die makes that width zero.
#[derive(Clone, Copy, Debug, PartialEq, Eq, Structural)]
pub enum ArithmeticError {
    DivisionByZero,
}

pub struct Dice<Generator: PRNG> {
    /// The number of sides of the die
    pub sides: u64,

    /// The pseudo-random number generator used to perform the die rolls
    pub generator: Generator,
}

/// Implement the methods for Dice with a parameterized Generator PRNG type.
impl<Generator: PRNG> Dice<Generator> {
    /// A standard 20-sided die
    pub fn d20() -> (r: Dice<Generator>)
        ensures
            r.sides == 20,
    {
        Self::from_sides(20)
    }

    /// A standard 12-sided die
    pub fn d12() -> (r: Dice<Generator>)
        ensures
            r.sides == 12,
    {
        Self::from_sides(12)
    }

    /// A standard 10-sided die
    pub fn d10() -> (r: Dice<Generator>)
        ensures
            r.sides == 10,
    {
        Self::from_sides(10)
    }

    /// A standard 8-sided die
    pub fn d8() -> (r: Dice<Generator>)
        ensures
            r.sides == 8,
    {
        Self::from_sides(8)
    }

    /// A standard 6-sided die
    pub fn d6() -> (r: Dice<Generator>)
        ensures
            r.sides == 6,
    {
        Self::from_sides(6)
    }

    /// A standard 4-sided die
    pub fn d4() -> (r: Dice<Generator>)
        ensures
            r.sides == 4,
    {
        Self::from_sides(4)
    }

    /// A percentage die.
    pub fn d_percent() -> (r: Dice<Generator>)
        ensures
            r.sides == 100,
    {
        Self::from_sides(100)
    }

    /// A helper constructor to produce a new die with the given sides and an
    /// instance of our Generator parameter.
    pub fn from_sides(sides: u64) -> (r: Dice<Generator>)
        ensures
            r.sides == sides,
    {
        Dice { sides: sides, generator: Generator::new() }
    }

    /// Roll the dice. This will return a random number in the range
    /// `[1, sides]`: one more than the generator's raw output taken modulo
    /// the sides count. A zero-sided die would divide by zero, so the
    /// caller must ensure the die has at least one side; `try_roll` rolls
    /// an arbitrary die and surfaces that failure instead.
    pub fn roll(&mut self) -> (r: u64)
        requires
            1 <= old(self).sides < u64::MAX,
        ensures
            r == 1 + old(self).generator.next_value() as int % old(self).sides as int,
            1 <= r <= old(self).sides,
            final(self).sides == old(self).sides,
            old(self).generator.steps_to(final(self).generator),
    {
        self.generator.next_min_max(1, self.sides + 1)
    }

    /// Roll the dice, guarding the one failure a roll can run into: a die
    /// with zero sides cannot map the generator's output into any range,
    /// and the error says so rather than letting a wrong value through.
    /// The roll fails if and only if the die has zero sides — a zero-sided
    /// die never yields a face value — and any other die rolls exactly as
    /// `roll` does.
    pub fn try_roll(&mut self) -> (r: Result<u64, ArithmeticError>)
        requires
            old(self).sides < u64::MAX,
        ensures
            r is Err <==> old(self).sides == 0,
            old(self).sides == 0 ==> r === Err(ArithmeticError::DivisionByZero),
            old(self).sides == 0 ==> *final(self) === *old(self),
            old(self).sides >= 1 ==> (r matches Ok(v)
                && v == 1 + old(self).generator.next_value() as int % old(self).sides as int),
            old(self).sides >= 1 ==> final(self).sides == old(self).sides,
            old(self).sides >= 1 ==> old(self).generator.steps_to(final(self).generator),
    {
        if self.sides == 0 {
            Err(ArithmeticError::DivisionByZero)
        } else {
            Ok(self.roll())
        }
    }
}

} // verus!
