use vstd::prelude::*;

use crate::prng::{get_time_seed, PRNG};

verus! {

broadcast use vstd::array::group_array_axioms;

// This is a 64-bit Mersenne Twister and uses the 64-bit MT parameters:
// the tempering masks and the twist constant below are the standard
// MT19937-64 values.

pub const STATE_VECTOR_LENGTH: usize = 312;

/// When applied will give the lower bits in a 64-bit uint: 2^31 - 1.
pub const LOWER_MASK: u64 = 0x7FFF_FFFF;

/// When applied will give the upper bits in a 64-bit uint: the complement
/// of the lower mask, less one.
pub const UPPER_MASK: u64 = 0xFFFF_FFFF_7FFF_FFFF;

/// The seeding recurrence: the word at index `i` of the initial state
/// vector, derived from the word before it. The xor-shifted predecessor
/// is multiplied (64x64 -> 128 bits, truncated back to 64 bits) by the
/// MT64 seeding factor, the index is added, and the result is masked to
/// its lower 31 bits.
pub open spec fn seed_word(prev: u64, i: int) -> u64 {
    let x: u64 = prev ^ (prev >> 29);
    let factor: int = (6364136223846793005 * x as int) % 0x1_0000_0000_0000_0000;
    let sum: int = (factor + i) % 0x1_0000_0000_0000_0000;
    (sum as u64) & LOWER_MASK
}

/// The first `n` words (`n >= 1`) of the initial state vector grown from
/// `seed`: word 0 is the seed itself, and each later word follows from its
/// predecessor by the seeding recurrence.
pub open spec fn seeded_prefix(seed: u64, n: int) -> Seq<u64>
    recommends
        n >= 1,
    decreases n,
{
    if n <= 1 {
        seq![seed]
    } else {
        let t = seeded_prefix(seed, n - 1);
        t.push(seed_word(t[n - 2], n - 1))
    }
}

/// The full initial state vector derived from a seed.
pub open spec fn mt_init(seed: u64) -> Seq<u64> {
    seeded_prefix(seed, STATE_VECTOR_LENGTH as int)
}

/// The twisted word at index `i`: combine the upper bits of word `i` with
/// the lower bits of word `i + 1`, shift right by one, fold in the MT64
/// twist constant when the shifted value is odd, and xor the result into
/// the word 156 places ahead (all indices wrapping around the vector).
pub open spec fn twisted_word(s: Seq<u64>, i: int) -> u64
    recommends
        s.len() == STATE_VECTOR_LENGTH,
        0 <= i < STATE_VECTOR_LENGTH,
{
    let x: u64 = (s[i] & UPPER_MASK) | (s[(i + 1) % (STATE_VECTOR_LENGTH as int)] & LOWER_MASK);
    let xshft: u64 = x >> 1;
    let folded: u64 = if xshft % 2 != 0 {
        xshft ^ 0xB5026F5AA96619E9
    } else {
        xshft
    };
    s[(i + 156) % (STATE_VECTOR_LENGTH as int)] ^ folded
}

/// The state vector after the first `n` steps of the twist pass. The pass
/// rewrites the vector in place, one index at a time, so each step reads
/// the words already rewritten by the steps before it.
pub open spec fn twist_prefix(s: Seq<u64>, n: int) -> Seq<u64>
    decreases n,
{
    if n <= 0 {
        s
    } else {
        let t = twist_prefix(s, n - 1);
        t.update(n - 1, twisted_word(t, n - 1))
    }
}

/// The state vector after a full twist pass: a pure function of the vector
/// immediately prior, with no other input.
pub open spec fn twist_spec(s: Seq<u64>) -> Seq<u64> {
    twist_prefix(s, STATE_VECTOR_LENGTH as int)
}

/// The MT64 tempering cascade applied to a raw state word before it is
/// returned as output.
pub open spec fn temper(w: u64) -> u64 {
    let a: u64 = w ^ ((w >> 29) & 0x5555555555555555);
    let b: u64 = a ^ ((a << 17) & 0x71D67FFFEDA60000);
    let c: u64 = b ^ ((b << 37) & 0xFFF7EEE000000000);
    c ^ (c >> 43)
}

#[derive(Debug)]
pub struct MersenneTwister {
    /// The state vector: 312 words, regenerated as a whole by `twist`.
    pub mt_table: [u64; STATE_VECTOR_LENGTH],

    /// The cursor into the state vector; once it reaches the vector's
    /// length, the vector must be twisted before any word is read.
    pub index: usize,
}

impl MersenneTwister {
    /// The generator is in its `NeedsTwist` state: every word of the state
    /// vector has been read, and the next read must twist first.
    pub open spec fn needs_twist(self) -> bool {
        self.index >= STATE_VECTOR_LENGTH
    }

    /// Instantiate a Mersenne Twister from an explicit seed, so that a
    /// caller can fix the output sequence. The cursor starts at the end of
    /// the state vector, forcing a twist on the first read.
    pub fn from_seed(seed: u64) -> (r: MersenneTwister)
        ensures
            r.mt_table@ == mt_init(seed),
            r.index == STATE_VECTOR_LENGTH,
    {
        let mut table: [u64; STATE_VECTOR_LENGTH] = [0u64; STATE_VECTOR_LENGTH];
        table[0] = seed;
        let mut i: usize = 1;
        while i < STATE_VECTOR_LENGTH
            invariant
                1 <= i <= STATE_VECTOR_LENGTH,
                table@.len() == STATE_VECTOR_LENGTH,
                table@.subrange(0, i as int) == seeded_prefix(seed, i as int),
            decreases STATE_VECTOR_LENGTH - i,
        {
            let prev: u64 = table[i - 1];
            let x: u64 = prev ^ (prev >> 29);
            let factor: u64 = ((6364136223846793005u128 * x as u128)
                % 0x1_0000_0000_0000_0000u128) as u64;
            let sum: u64 = ((factor as u128 + i as u128) % 0x1_0000_0000_0000_0000u128) as u64;
            let word: u64 = sum & LOWER_MASK;
            proof {
                assert(table@.subrange(0, i as int)[i - 1] == table@[i - 1]);
                assert(word == seed_word(prev, i as int));
            }
            table[i] = word;
            proof {
                assert(table@.subrange(0, i as int + 1) =~= seeded_prefix(seed, i as int).push(
                    word,
                ));
            }
            i = i + 1;
        }
        proof {
            assert(table@.subrange(0, STATE_VECTOR_LENGTH as int) =~= table@);
        }
        MersenneTwister { mt_table: table, index: STATE_VECTOR_LENGTH }
    }

    /// Regenerate the whole state vector in place and reset the cursor.
    /// The new contents are a pure function of the contents immediately
    /// prior: re-running the twist on equal input vectors gives equal
    /// output vectors.
    pub fn twist(&mut self)
        ensures
            final(self).mt_table@ == twist_spec(old(self).mt_table@),
            final(self).index == 0,
    {
        let mut i: usize = 0;
        while i < STATE_VECTOR_LENGTH
            invariant
                i <= STATE_VECTOR_LENGTH,
                self.mt_table@ == twist_prefix(old(self).mt_table@, i as int),
            decreases STATE_VECTOR_LENGTH - i,
        {
            let x: u64 = (self.mt_table[i] & UPPER_MASK) | (self.mt_table[(i + 1)
                % STATE_VECTOR_LENGTH] & LOWER_MASK);
            let mut xshft: u64 = x >> 1;
            if xshft % 2 != 0 {
                xshft = xshft ^ 0xB5026F5AA96619E9;
            }
            let word: u64 = self.mt_table[(i + 156) % STATE_VECTOR_LENGTH] ^ xshft;
            proof {
                assert(word == twisted_word(self.mt_table@, i as int));
            }
            self.mt_table[i] = word;
            i = i + 1;
        }
        self.index = 0;
    }
}

impl PRNG for MersenneTwister {
    open spec fn next_value(self) -> u64 {
        if self.needs_twist() {
            temper(twist_spec(self.mt_table@)[0]) & LOWER_MASK
        } else {
            temper(self.mt_table@[self.index as int]) & LOWER_MASK
        }
    }

    open spec fn steps_to(self, post: Self) -> bool {
        if self.needs_twist() {
            post.mt_table@ == twist_spec(self.mt_table@) && post.index == 1
        } else {
            post.mt_table@ == self.mt_table@ && post.index == self.index + 1
        }
    }

    /// Instantiate a Mersenne Twister seeded from the current time. The
    /// state vector is some properly seeded vector, and the cursor forces
    /// a twist on the first read.
    fn new() -> (r: Self)
        ensures
            exists|seed: u64| r.mt_table@ == mt_init(seed),
            r.needs_twist(),
    {
        let seed = get_time_seed();
        let r = MersenneTwister::from_seed(seed);
        proof {
            assert(r.mt_table@ == mt_init(seed));
        }
        r
    }

    /// Calculate the next pseudo-random number in the sequence: read the
    /// word under the cursor (twisting first if the vector is exhausted),
    /// temper it, advance the cursor, and mask the result to its lower
    /// 31 bits.
    fn next(&mut self) -> (r: u64) {
        if self.index >= STATE_VECTOR_LENGTH {
            self.twist();
        }
        let mut y: u64 = self.mt_table[self.index];
        y = y ^ ((y >> 29) & 0x5555555555555555);
        y = y ^ ((y << 17) & 0x71D67FFFEDA60000);
        y = y ^ ((y << 37) & 0xFFF7EEE000000000);
        y = y ^ (y >> 43);

        self.index = self.index + 1;
        y & LOWER_MASK
    }
}

/// Re-running the twist transform is deterministic: two generators whose
/// state vectors hold the same words are twisted to the same vector.
pub proof fn lemma_twist_deterministic(a: MersenneTwister, b: MersenneTwister)
    requires
        a.mt_table@ == b.mt_table@,
    ensures
        twist_spec(a.mt_table@) == twist_spec(b.mt_table@),
{
}

/// Along a chain of states linked by `steps_to` that starts in the
/// `NeedsTwist` state, the cursor after `k` reads stands at `k`, and the
/// state vector is the one the first read produced.
proof fn lemma_cursor_walk(states: Seq<MersenneTwister>, k: int)
    requires
        states.len() > k,
        1 <= k <= STATE_VECTOR_LENGTH,
        states[0].needs_twist(),
        forall|i: int| 0 <= i < k ==> #[trigger] states[i].steps_to(states[i + 1]),
    ensures
        states[k].index == k,
        states[k].mt_table@ == twist_spec(states[0].mt_table@),
    decreases k,
{
    let j: int = k - 1;
    assert(states[j].steps_to(states[j + 1]));
    if k > 1 {
        lemma_cursor_walk(states, k - 1);
    }
}

/// From a freshly seeded generator the first read twists the state vector,
/// the following 311 reads serve words from that same vector without
/// twisting again, and after 312 reads the generator is back in the
/// `NeedsTwist` state, so the 313th read triggers exactly one more twist.
pub proof fn lemma_one_twist_per_block(states: Seq<MersenneTwister>)
    requires
        states.len() == STATE_VECTOR_LENGTH + 1,
        states[0].needs_twist(),
        forall|i: int|
            0 <= i < STATE_VECTOR_LENGTH ==> #[trigger] states[i].steps_to(states[i + 1]),
    ensures
        forall|i: int| 1 <= i <= STATE_VECTOR_LENGTH ==> #[trigger] states[i].index == i,
        forall|i: int|
            1 <= i <= STATE_VECTOR_LENGTH ==> #[trigger] states[i].mt_table@ == twist_spec(
                states[0].mt_table@,
            ),
        forall|i: int| 1 <= i < STATE_VECTOR_LENGTH ==> !(#[trigger] states[i].needs_twist()),
        states[STATE_VECTOR_LENGTH as int].needs_twist(),
{
    assert forall|i: int| 1 <= i <= STATE_VECTOR_LENGTH implies #[trigger] states[i].index == i by {
        lemma_cursor_walk(states, i);
    }
    assert forall|i: int| 1 <= i <= STATE_VECTOR_LENGTH implies #[trigger] states[i].mt_table@
        == twist_spec(states[0].mt_table@) by {
        lemma_cursor_walk(states, i);
    }
}

} // verus!
