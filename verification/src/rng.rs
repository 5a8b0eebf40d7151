//! The particle system's small xorshift generator. Its state is never zero
//! (zero is the one state that xorshift maps to itself).

use vstd::prelude::*;

verus! {

/// `x` rotated left by 17 bits.
pub open spec fn rotl17(x: u64) -> u64 {
    (x << 17u64) | (x >> 47u64)
}

/// The seed made from a clock reading and a counter value: the two mixed
/// with a constant, and a fixed nonzero seed in place of zero.
pub open spec fn seed_of(nanos: u64, counter: u64) -> u64 {
    let s = nanos ^ rotl17(counter) ^ 0xDEADBEEFu64;
    if s == 0 { 0xDEADBEEFu64 } else { s }
}

/// One xorshift64 step (shifts 13, 7, 17).
pub open spec fn xorshift(x: u64) -> u64 {
    let a = x ^ (x << 13u64);
    let b = a ^ (a >> 7u64);
    b ^ (b << 17u64)
}

/// A xorshift step maps a nonzero state to a nonzero state.
pub proof fn lemma_xorshift_nonzero(x: u64)
    requires
        x != 0,
    ensures
        xorshift(x) != 0,
{
    let a = x ^ (x << 13u64);
    let b = a ^ (a >> 7u64);
    assert(x != 0 ==> x ^ (x << 13u64) != 0) by (bit_vector);
    assert(a != 0 ==> a ^ (a >> 7u64) != 0) by (bit_vector);
    assert(b != 0 ==> b ^ (b << 17u64) != 0) by (bit_vector);
}

/// Tiny xorshift PRNG, good enough for particles.
pub struct TinyRng {
    state: u64,
}

impl TinyRng {
    /// The state is never zero.
    #[verifier::type_invariant]
    spec fn nonzero(self) -> bool {
        self.state != 0
    }

    pub closed spec fn state(self) -> u64 {
        self.state
    }

    /// Seed from a clock reading (nanoseconds) and a per-process counter
    /// value, so that generators made in the same nanosecond still diverge.
    pub fn from_parts(nanos: u64, counter: u64) -> (r: TinyRng)
        ensures
            r.state() == seed_of(nanos, counter),
            r.state() != 0,
    {
        let mut s = nanos ^ ((counter << 17u64) | (counter >> 47u64)) ^ 0xDEADBEEFu64;
        if s == 0 {
            s = 0xDEADBEEFu64;
        }
        TinyRng { state: s }
    }

    /// Advance the state by one xorshift step and return the new state.
    pub fn next_u64(&mut self) -> (r: u64)
        ensures
            r == xorshift(old(self).state()),
            final(self).state() == r,
            r != 0,
    {
        proof {
            use_type_invariant(&*self);
            lemma_xorshift_nonzero(self.state);
        }
        let mut x = self.state;
        x = x ^ (x << 13u64);
        x = x ^ (x >> 7u64);
        x = x ^ (x << 17u64);
        self.state = x;
        x
    }

    /// Advance the state and return the top 53 bits of the new state: a
    /// uniform integer below 2^53, which the host scales into a float in
    /// `0.0..1.0`.
    pub fn next_unit_bits(&mut self) -> (r: u64)
        ensures
            r == xorshift(old(self).state()) >> 11u64,
            final(self).state() == xorshift(old(self).state()),
            r < 0x20_0000_0000_0000u64,
    {
        let x = self.next_u64();
        assert(x >> 11u64 < 0x20_0000_0000_0000u64) by (bit_vector);
        x >> 11u64
    }
}

} // verus!
