use vstd::prelude::*;

use crate::prng::{get_time_seed, PRNG};

verus! {

/// The multiplier of the final scrambling step, from the standard
/// xorshift* parameterization.
pub const XS_MULTIPLIER: u64 = 0x2545F4914F6CDD1D;

/// One xorshift pass over a single 64-bit word: three xor-shift steps,
/// each operating on the value already updated by the prior step.
pub open spec fn xs_step(s: u64) -> u64 {
    let a: u64 = s ^ (s >> 12);
    let b: u64 = a ^ (a << 25);
    b ^ (b >> 27)
}

/// The scrambling step of xorshift*: the state times the multiplier,
/// truncated to 64 bits. It reads the state without changing it.
pub open spec fn xs_output(s: u64) -> u64 {
    ((s as int * XS_MULTIPLIER as int) % 0x1_0000_0000_0000_0000) as u64
}

/// The initial state derived from a seed: the seed itself, stored directly
/// as the state word with no derivation pass.
pub open spec fn xs_init(seed: u64) -> u64 {
    seed
}

/// xorshift* pseudo-random number generator state
#[derive(Debug)]
pub struct XorshiftStar {
    pub state: u64,
}

impl XorshiftStar {
    /// Instantiate an xorshift* pseudo-random number generator from an
    /// explicit seed, so that a caller can fix the output sequence.
    ///
    /// The seed is stored directly as the state word. A zero seed is a
    /// degenerate fixed point of the xorshift transform (the whole output
    /// sequence is zero); this is deliberately not guarded against.
    pub fn from_seed(seed: u64) -> (r: XorshiftStar)
        ensures
            r.state == seed,
    {
        XorshiftStar { state: seed }
    }
}

/// Implement the PRNG trait for the xorshift* pseudo-random number generator.
impl PRNG for XorshiftStar {
    open spec fn next_value(self) -> u64 {
        xs_output(xs_step(self.state))
    }

    open spec fn steps_to(self, post: Self) -> bool {
        post.state == xs_step(self.state)
    }

    /// Instantiate an xorshift* pseudo-random number generator with the
    /// current time: the seed source's value is stored directly as the
    /// state word, with no derivation pass.
    fn new() -> (r: Self)
        ensures
            exists|seed: u64| r.state == xs_init(seed),
    {
        let seed = get_time_seed();
        let r = XorshiftStar::from_seed(seed);
        proof {
            assert(r.state == xs_init(seed));
        }
        r
    }

    /// Calculate the next pseudo-random number in the sequence.
    fn next(&mut self) -> (r: u64) {
        self.state = self.state ^ (self.state >> 12);
        self.state = self.state ^ (self.state << 25);
        self.state = self.state ^ (self.state >> 27);

        let wide: u128 = self.state as u128 * XS_MULTIPLIER as u128;
        (wide % 0x1_0000_0000_0000_0000u128) as u64
    }
}

/// xorshift* is deterministic: two generators that hold the same state word
/// produce the same output and step to the same successor state.
pub proof fn lemma_xorshift_deterministic(a: XorshiftStar, b: XorshiftStar)
    requires
        a.state == b.state,
    ensures
        a.next_value() == b.next_value(),
        forall|pa: XorshiftStar, pb: XorshiftStar|
            a.steps_to(pa) && b.steps_to(pb) ==> pa == pb,
{
}

/// Two runs of xorshift* seeded with the same state word stay in lockstep:
/// along any two equally long chains of states linked by `steps_to`, the
/// states and the outputs agree at every position, so a fixed seed
/// reproduces an identical output sequence across independent runs.
pub proof fn lemma_xorshift_reproducible(a: Seq<XorshiftStar>, b: Seq<XorshiftStar>)
    requires
        a.len() == b.len(),
        a[0].state == b[0].state,
        forall|i: int| 0 <= i < a.len() - 1 ==> #[trigger] a[i].steps_to(a[i + 1]),
        forall|i: int| 0 <= i < b.len() - 1 ==> #[trigger] b[i].steps_to(b[i + 1]),
    ensures
        forall|i: int| 0 <= i < a.len() ==> #[trigger] a[i].state == #[trigger] b[i].state,
        forall|i: int| 0 <= i < a.len() ==> #[trigger] a[i].next_value() == b[i].next_value(),
{
    assert forall|i: int| 0 <= i < a.len() implies #[trigger] a[i].state == #[trigger] b[i].state by {
        lemma_xorshift_lockstep_at(a, b, i);
    }
    assert forall|i: int| 0 <= i < a.len() implies #[trigger] a[i].next_value()
        == b[i].next_value() by {
        lemma_xorshift_lockstep_at(a, b, i);
    }
}

/// The two chains agree at position `i`, by induction along the chains.
proof fn lemma_xorshift_lockstep_at(a: Seq<XorshiftStar>, b: Seq<XorshiftStar>, i: int)
    requires
        a.len() == b.len(),
        0 <= i < a.len(),
        a[0].state == b[0].state,
        forall|j: int| 0 <= j < a.len() - 1 ==> #[trigger] a[j].steps_to(a[j + 1]),
        forall|j: int| 0 <= j < b.len() - 1 ==> #[trigger] b[j].steps_to(b[j + 1]),
    ensures
        a[i].state == b[i].state,
    decreases i,
{
    if i > 0 {
        lemma_xorshift_lockstep_at(a, b, i - 1);
        let j: int = i - 1;
        assert(a[j].steps_to(a[j + 1]));
        assert(b[j].steps_to(b[j + 1]));
    }
}

} // verus!
