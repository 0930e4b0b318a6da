use vstd::prelude::*;

verus! {

/// One step of the xorshift64 generator: shift left 13, right 17, left 5,
/// each time xor-ing the shifted value back in.
pub open spec fn xorshift(x: u64) -> u64 {
    let a = x ^ (x << 13u64);
    let b = a ^ (a >> 17u64);
    b ^ (b << 5u64)
}

/// The value that `rand_in_range(min, max)` yields from generator state `s`.
pub open spec fn range_value(s: u64, min: u64, max: u64) -> int
    recommends
        min < max,
{
    min + (xorshift(s) % (max - min) as u64)
}

/// The values that successive calls `rand_in_range(ranges[k].0, ranges[k].1)`
/// yield from a generator in state `s`: they depend on the seed and the ranges
/// alone.
pub open spec fn draws(s: u64, ranges: Seq<(u64, u64)>) -> Seq<int>
    decreases ranges.len(),
{
    if ranges.len() == 0 {
        Seq::empty()
    } else {
        seq![range_value(s, ranges[0].0, ranges[0].1)] + draws(xorshift(s), ranges.drop_first())
    }
}

/// Equal seeds give equal sequences of draws, and each draw lies in its range
/// `[min, max)`.
pub proof fn lemma_draws_deterministic_and_in_range(a: u64, b: u64, ranges: Seq<(u64, u64)>)
    requires
        a == b,
        forall|k: int| 0 <= k < ranges.len() ==> (#[trigger] ranges[k]).0 < ranges[k].1,
    ensures
        draws(a, ranges) == draws(b, ranges),
        draws(a, ranges).len() == ranges.len(),
        forall|k: int|
            0 <= k < ranges.len() ==> ranges[k].0 <= #[trigger] draws(a, ranges)[k] < ranges[k].1,
    decreases ranges.len(),
{
    if ranges.len() > 0 {
        let rest = ranges.drop_first();
        assert forall|k: int| 0 <= k < rest.len() implies (#[trigger] rest[k]).0 < rest[k].1 by {
            assert(rest[k] == ranges[k + 1]);
        }
        lemma_draws_deterministic_and_in_range(xorshift(a), xorshift(b), rest);
        let (lo, hi) = ranges[0];
        assert(xorshift(a) % ((hi - lo) as u64) < hi - lo);
        assert forall|k: int| 0 <= k < ranges.len() implies ranges[k].0 <= #[trigger] draws(a, ranges)[k]
            < ranges[k].1 by {
            if k > 0 {
                assert(draws(a, ranges)[k] == draws(xorshift(a), rest)[k - 1]);
                assert(rest[k - 1] == ranges[k]);
            }
        }
    }
}

/// Seed for a new generator, drawn from the process's hashing entropy.
///
/// Relies on `std::hash::RandomState::new` (a randomly keyed hasher) and the
/// `finish` of the hasher it builds: nothing is known of the value.
#[verifier::external_body]
fn entropy_seed() -> (r: u64) {
    std::hash::Hasher::finish(&std::hash::BuildHasher::build_hasher(&std::hash::RandomState::new()))
}

/// Seeded xorshift64 pseudo-random generator, used for visual shuffling only.
#[derive(Debug)]
pub struct RandomGenerator {
    random: u64,
}

impl RandomGenerator {
    /// Current generator state.
    pub closed spec fn state(&self) -> u64 {
        self.random
    }

    /// A generator seeded from an outside entropy source.
    pub fn new() -> (r: RandomGenerator) {
        RandomGenerator { random: entropy_seed() }
    }

    /// A generator with a chosen seed; equal seeds give equal sequences.
    pub fn from_seed(seed: u64) -> (r: RandomGenerator)
        ensures
            r.state() == seed,
    {
        RandomGenerator { random: seed }
    }

    /// Advances the state by one xorshift step and returns it modulo `m`.
    pub fn rand_mod(&mut self, m: u64) -> (r: u64)
        requires
            m > 0,
        ensures
            final(self).state() == xorshift(old(self).state()),
            r == xorshift(old(self).state()) % m,
            r < m,
    {
        self.random = self.random ^ (self.random << 13u64);
        self.random = self.random ^ (self.random >> 17u64);
        self.random = self.random ^ (self.random << 5u64);
        self.random % m
    }

    /// A value in `[min, max)`: `min` plus the next state modulo `max - min`.
    pub fn rand_in_range(&mut self, min: u64, max: u64) -> (r: u64)
        requires
            min < max,
        ensures
            final(self).state() == xorshift(old(self).state()),
            r == range_value(old(self).state(), min, max),
            min <= r < max,
    {
        min + self.rand_mod(max - min)
    }
}

} // verus!
