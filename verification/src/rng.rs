//! Deterministic pseudo-random generator seeded from a string.
//!
//! Construction folds every seed byte into a 64-bit state with a fixed
//! multiply-add recurrence; every draw advances the state with a fixed
//! xorshift transform (left 13, right 7, left 17).  The whole point of this
//! generator is bit-for-bit reproducibility: the same seed string always
//! yields the same sequence, on any machine.

use vstd::prelude::*;
use vstd::string::StringSliceAdditionalSpecFns;

verus! {

/// Initial state before any seed byte is mixed in.
pub const RNG_INIT_STATE: u64 = 0x853c49e6748fea9b;

/// Multiplier of the seed-mixing recurrence.
pub const RNG_MIX_MUL: u64 = 0x5851f42d4c957f2d;

/// Increment of the seed-mixing recurrence.
pub const RNG_MIX_ADD: u64 = 0x14057b7ef767814f;

/// One step of the seed-mixing recurrence: xor a byte in, then multiply-add.
pub open spec fn seed_mix(state: u64, b: u8) -> u64 {
    (state ^ b as u64).wrapping_mul(RNG_MIX_MUL).wrapping_add(RNG_MIX_ADD)
}

/// State obtained by mixing all bytes of `bytes`, in order, into the
/// initial state.
pub open spec fn seed_state(bytes: Seq<u8>) -> u64
    decreases bytes.len(),
{
    if bytes.len() == 0 {
        RNG_INIT_STATE
    } else {
        seed_mix(seed_state(bytes.drop_last()), bytes.last())
    }
}

/// The xorshift64 transform applied to the state on every draw.
pub open spec fn rng_step(s: u64) -> u64 {
    let a = s ^ (s << 13u64);
    let b = a ^ (a >> 7u64);
    b ^ (b << 17u64)
}

/// State after `k` draws from state `s`.
pub open spec fn rng_state_after(s: u64, k: nat) -> u64
    decreases k,
{
    if k == 0 {
        s
    } else {
        rng_step(rng_state_after(s, (k - 1) as nat))
    }
}

/// Deterministic pseudo-random generator; the entire value is the 64-bit
/// state.
pub struct Rng {
    /// Current state; the next draw applies `rng_step` to it.
    pub state: u64,
}

proof fn lemma_seed_state_snoc(bytes: Seq<u8>, i: int)
    requires
        0 <= i < bytes.len(),
    ensures
        seed_state(bytes.take(i + 1)) == seed_mix(seed_state(bytes.take(i)), bytes[i]),
{
    let t = bytes.take(i + 1);
    assert(t.drop_last() =~= bytes.take(i));
    assert(t.last() == bytes[i]);
}

impl Rng {
    /// Builds the generator from a seed string by mixing every byte of its
    /// UTF-8 encoding into the state.
    pub fn new(seed: &str) -> (r: Rng)
        ensures
            r.state == seed_state(seed.spec_bytes()),
    {
        let bytes = seed.as_bytes();
        let mut state: u64 = RNG_INIT_STATE;
        let mut i: usize = 0;
        while i < bytes.len()
            invariant
                0 <= i <= bytes@.len(),
                bytes@ == seed.spec_bytes(),
                state == seed_state(bytes@.take(i as int)),
            decreases bytes@.len() - i,
        {
            proof {
                lemma_seed_state_snoc(bytes@, i as int);
            }
            state = (state ^ bytes[i] as u64).wrapping_mul(RNG_MIX_MUL).wrapping_add(RNG_MIX_ADD);
            i += 1;
        }
        proof {
            assert(bytes@.take(bytes@.len() as int) =~= bytes@);
        }
        Rng { state }
    }

    /// Draws a fixed-point fraction in `[0, 1)` scaled by 1 000 000.
    pub fn next_fp(&mut self) -> (r: u32)
        ensures
            final(self).state == rng_step(old(self).state),
            r == (rng_step(old(self).state) % 1_000_000u64) as u32,
            r < 1_000_000,
    {
        self.state = self.state ^ (self.state << 13u64);
        self.state = self.state ^ (self.state >> 7u64);
        self.state = self.state ^ (self.state << 17u64);
        (self.state % 1_000_000) as u32
    }

    /// Draws a value in `[0, n)` by reducing the raw state modulo `n`.
    pub fn next_usize(&mut self, n: usize) -> (r: usize)
        requires
            n > 0,
        ensures
            final(self).state == rng_step(old(self).state),
            r == rng_step(old(self).state) as usize % n,
            r < n,
    {
        self.state = self.state ^ (self.state << 13u64);
        self.state = self.state ^ (self.state >> 7u64);
        self.state = self.state ^ (self.state << 17u64);
        (self.state as usize) % n
    }
}

/// Determinism: two generators built over the same seed bytes stand in the
/// same state, and stay equal after any number of draws.
pub proof fn lemma_rng_deterministic(seed: Seq<u8>, a: Rng, b: Rng)
    requires
        a.state == seed_state(seed),
        b.state == seed_state(seed),
    ensures
        forall|k: nat| rng_state_after(a.state, k) == rng_state_after(b.state, k),
{
}

} // verus!
