use vstd::prelude::*;

pub mod mersenne_twister;
pub mod xorshift_star;

pub use mersenne_twister::MersenneTwister;
pub use xorshift_star::XorshiftStar;

verus! {

/// Get the current UNIX time in milliseconds to use for seeding a
/// pseudo-random number generator.
///
/// Relies on `std::time::SystemTime::now` and
/// `SystemTime::duration_since(UNIX_EPOCH)`: the number of milliseconds
/// since the UNIX epoch, truncated to 64 bits. The value depends on the
/// wall clock, so nothing is promised of the result. Aborts if the clock
/// reads earlier than the epoch (a failed clock read is unrecoverable).
#[verifier::external_body]
pub fn get_time_seed() -> u64 {
    let start = std::time::SystemTime::now();
    start.duration_since(std::time::UNIX_EPOCH).expect("Time went backwards!").as_millis() as u64
}

/// A standard interface that is required for a pseudo-random number generator.
///
/// A conforming generator is a deterministic state machine: `next_value`
/// gives the output of the coming `next` call as a function of the current
/// state alone, and `steps_to` says which state that call leaves behind.
pub trait PRNG: Sized {
    /// The raw 64-bit value that the next call to `next` will return,
    /// as a pure function of the generator's current state.
    spec fn next_value(self) -> u64;

    /// The state-transition relation of one `next` call: `self` is the
    /// state before the call, `post` the state after it.
    spec fn steps_to(self, post: Self) -> bool;

    /// Require that a pseudo-random number generator is able to instantiate
    /// itself, freshly seeded from the time-derived seed source.
    fn new() -> Self;

    /// Require that a pseudo-random number generator is able to calculate
    /// the next number in the sequence.
    fn next(&mut self) -> (r: u64)
        ensures
            r == old(self).next_value(),
            old(self).steps_to(*final(self)),
    ;

    /// A helper method that will use the pseudo-random number generator's
    /// `next` implementation to get a random number in the range `[min, max)`.
    ///
    /// The result is `min + (next() mod (max - min))`; when `max - min` does
    /// not evenly divide 2^64 the mapping is deliberately not uniform
    /// (modulo bias). A call with `max == min` would divide by zero, so the
    /// caller must ensure `max > min`.
    fn next_min_max(&mut self, min: u64, max: u64) -> (r: u64)
        requires
            min < max,
        ensures
            r == min + old(self).next_value() as int % (max - min),
            min <= r < max,
            old(self).steps_to(*final(self)),
    {
        min + (self.next() % (max - min))
    }

    /// A helper method that will use the pseudo-random number generator's
    /// `next` implementation to get a random number in the range `[0, max)`.
    fn next_max(&mut self, max: u64) -> (r: u64)
        requires
            0 < max,
        ensures
            r == old(self).next_value() as int % max as int,
            r < max,
            old(self).steps_to(*final(self)),
    {
        self.next_min_max(0, max)
    }
}

} // verus!
