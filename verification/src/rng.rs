use vstd::prelude::*;
use rand::Rng;
use rand::SeedableRng;

verus! {

#[verifier::external_type_specification]
#[verifier::external_body]
pub struct ExStdRng(rand::rngs::StdRng);

/// The library's single source of randomness.  Every stochastic operation
/// takes one by `&mut`, so the driver can thread one generator through a
/// whole game and a test can substitute a seeded source and replay an
/// entire generation.
pub struct GameRng {
    inner: rand::rngs::StdRng,
}

impl GameRng {
    /// Relies on rand's `StdRng::seed_from_u64`: builds a generator whose
    /// draws are a function of the seed alone.
    #[verifier::external_body]
    pub fn from_seed(seed: u64) -> GameRng {
        GameRng { inner: rand::rngs::StdRng::seed_from_u64(seed) }
    }

    /// Relies on rand's `StdRng::from_entropy`: builds a generator seeded
    /// from the operating system.
    #[verifier::external_body]
    pub fn from_entropy() -> GameRng {
        GameRng { inner: rand::rngs::StdRng::from_entropy() }
    }

    /// Relies on rand's `Rng::gen_range`: returns a value uniform in
    /// `lo..hi`, and panics only on an empty range, which the
    /// precondition rules out.
    #[verifier::external_body]
    pub fn gen_range(&mut self, lo: u16, hi: u16) -> (r: u16)
        requires
            lo < hi,
        ensures
            lo <= r < hi,
    {
        self.inner.gen_range(lo..hi)
    }
}

} // verus!
