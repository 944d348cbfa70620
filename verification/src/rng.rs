//! A seeded pseudo-random source with a ghost model of its draw stream.
//!
//! The generator draws fixed-size 32-byte blocks. Because every draw is of
//! the same shape, the state of the underlying generator after `n` draws is a
//! function of the seed and `n` alone, so each drawn block is a function of
//! the seed and its position in the stream. That function is given the
//! uninterpreted name `block_at`, which is what makes generation determinism
//! provable.

use vstd::prelude::*;

verus! {

#[verifier::external_type_specification]
#[verifier::external_body]
pub struct ExStdRng(rand::rngs::StdRng);

/// The 32-byte block that rand's `StdRng`, seeded with `seed`, yields on its
/// `index`-th draw (0-indexed, counting only 32-byte draws). `StdRng` is a
/// deterministic, platform-independent generator, so this is a function of
/// `seed` and `index` alone.
pub uninterp spec fn block_at(seed: u64, index: nat) -> Seq<u8>;

/// Relies on rand's `SeedableRng::seed_from_u64` for `StdRng`: the generator's
/// whole stream is determined by the 64-bit seed.
#[verifier::external_body]
fn std_rng_from_seed(seed: u64) -> rand::rngs::StdRng {
    <rand::rngs::StdRng as rand::SeedableRng>::seed_from_u64(seed)
}

/// A pseudo-random source seeded once, tracking in ghost state the seed and
/// how many blocks have been drawn so far.
pub struct SeededRng {
    inner: rand::rngs::StdRng,
    seed: Ghost<u64>,
    drawn: Ghost<nat>,
}

impl SeededRng {
    /// The seed this source was created from.
    pub closed spec fn seed(self) -> u64 {
        self.seed@
    }

    /// How many blocks have been drawn so far.
    pub closed spec fn drawn(self) -> nat {
        self.drawn@
    }

    /// A fresh source whose stream is determined by `seed`.
    pub fn new(seed: u64) -> (r: SeededRng)
        ensures
            r.seed() == seed,
            r.drawn() == 0,
    {
        SeededRng { inner: std_rng_from_seed(seed), seed: Ghost(seed), drawn: Ghost(0nat) }
    }

    /// Relies on rand's `Rng::gen` for `[u8; 32]` on `StdRng`: the drawn block
    /// is a pure function of the seed and of the number of draws made before
    /// it, named `block_at`.
    #[verifier::external_body]
    pub fn draw_block(&mut self) -> (r: [u8; 32])
        ensures
            final(self).seed() == old(self).seed(),
            final(self).drawn() == old(self).drawn() + 1,
            r@ == block_at(old(self).seed(), old(self).drawn()),
    {
        rand::Rng::gen(&mut self.inner)
    }
}

} // verus!
