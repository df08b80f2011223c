//! A PCG32 (XSH-RR) pseudo-random generator. The simulation owns one, and
//! agents that need randomness own their own, always seeded from match
//! configuration.
use vstd::prelude::*;

verus! {

/// The 64-bit LCG multiplier of PCG32.
pub const MULTIPLIER: u64 = 6364136223846793005;

/// PCG32 generator state.
#[derive(Clone, Copy, Debug, PartialEq, Eq, Structural)]
pub struct Pcg32 {
    state: u64,
    inc: u64,
}

/// One LCG step of the internal state.
#[verifier::opaque]
pub open spec fn lcg_step(state: u64, inc: u64) -> u64 {
    vstd::wrapping::u64_specs::wrapping_add(
        vstd::wrapping::u64_specs::wrapping_mul(state, MULTIPLIER),
        inc,
    )
}

/// 32-bit right rotation.
pub open spec fn rotr32(x: u32, r: u32) -> u32 {
    if r % 32 == 0 {
        x
    } else {
        (x >> (r % 32)) | (x << ((32 - r % 32) as u32))
    }
}

/// The XSH-RR output permutation applied to a pre-step state.
#[verifier::opaque]
pub open spec fn pcg_output(old: u64) -> u32 {
    rotr32((((old >> 18u64) ^ old) >> 27u64) as u32, (old >> 59u64) as u32)
}

impl View for Pcg32 {
    type V = (u64, u64);

    closed spec fn view(&self) -> (u64, u64) {
        (self.state, self.inc)
    }
}

/// The generator a `(seed, seq)` pair produces.
pub open spec fn spec_seeded(seed: u64, seq: u64) -> (u64, u64) {
    let inc = ((seq << 1u64) | 1u64) as u64;
    let s1 = lcg_step(0, inc);
    let s2 = vstd::wrapping::u64_specs::wrapping_add(s1, seed);
    (lcg_step(s2, inc), inc)
}

/// One draw: the output for the current state, and the next state.
pub open spec fn spec_next(g: (u64, u64)) -> (u32, (u64, u64)) {
    (pcg_output(g.0), (lcg_step(g.0, g.1), g.1))
}

/// Rejection sampling of `[0, bound)`: draw until the output is at least
/// `threshold`, giving up (and reducing the last draw) after `fuel` rejections.
pub open spec fn spec_draw(g: (u64, u64), bound: u32, threshold: u32, fuel: nat) -> (u32, (u64, u64))
    decreases fuel,
{
    let (r, g1) = spec_next(g);
    if bound == 0 {
        (0, g)
    } else if r >= threshold || fuel == 0 {
        ((r % bound) as u32, g1)
    } else {
        spec_draw(g1, bound, threshold, (fuel - 1) as nat)
    }
}

/// The rejection threshold for `bound`: `2^32 mod bound`.
pub open spec fn spec_threshold(bound: u32) -> u32 {
    if bound == 0 {
        0
    } else {
        (vstd::wrapping::u32_specs::wrapping_sub(0, bound) % bound) as u32
    }
}

/// A uniform draw from `[0, bound)`, with the generator's next state.
pub open spec fn spec_bounded(g: (u64, u64), bound: u32) -> (u32, (u64, u64)) {
    spec_draw(g, bound, spec_threshold(bound), u64::MAX as nat)
}

/// Every rejection-sampled draw lies in `[0, bound)`.
pub proof fn lemma_draw_in_range(g: (u64, u64), bound: u32, threshold: u32, fuel: nat)
    requires
        bound > 0,
    ensures
        spec_draw(g, bound, threshold, fuel).0 < bound,
    decreases fuel,
{
    let (r, g1) = spec_next(g);
    if !(r >= threshold || fuel == 0) {
        lemma_draw_in_range(g1, bound, threshold, (fuel - 1) as nat);
    }
}

impl Pcg32 {
    /// Seed a generator from a seed and a stream selector.
    pub fn new(seed: u64, seq: u64) -> (r: Pcg32)
        ensures
            r@ == spec_seeded(seed, seq),
    {
        let mut rng = Pcg32 { state: 0, inc: (seq << 1u64) | 1u64 };
        rng.step();
        rng.state = rng.state.wrapping_add(seed);
        rng.step();
        rng
    }

    fn step(&mut self)
        ensures
            final(self)@ == (lcg_step(old(self)@.0, old(self)@.1), old(self)@.1),
    {
        proof {
            reveal(lcg_step);
        }
        self.state = self.state.wrapping_mul(MULTIPLIER).wrapping_add(self.inc);
    }

    /// Next 32-bit output.
    pub fn next_u32(&mut self) -> (r: u32)
        ensures
            (r, final(self)@) == spec_next(old(self)@),
    {
        let old = self.state;
        self.step();
        let xorshifted = (((old >> 18u64) ^ old) >> 27u64) as u32;
        let rot = (old >> 59u64) as u32;
        proof {
            reveal(pcg_output);
        }
        rotate_right(xorshifted, rot)
    }

    /// Uniform integer in `[0, bound)`; `0` when `bound` is `0`.
    pub fn next_bounded(&mut self, bound: u32) -> (r: u32)
        ensures
            (r, final(self)@) == spec_bounded(old(self)@, bound),
            bound > 0 ==> r < bound,
            bound == 0 ==> r == 0,
    {
        proof {
            if bound > 0 {
                lemma_draw_in_range(self@, bound, spec_threshold(bound), u64::MAX as nat);
            }
        }
        if bound == 0 {
            return 0;
        }
        let threshold = 0u32.wrapping_sub(bound) % bound;
        let ghost g0 = self@;
        let mut tries: u64 = 0;
        loop
            invariant
                bound > 0,
                threshold == spec_threshold(bound),
                g0 == old(self)@,
                spec_draw(self@, bound, threshold, (u64::MAX - tries) as nat) == spec_bounded(g0, bound),
            decreases u64::MAX - tries,
        {
            let ghost gp = self@;
            let ghost fuel = (u64::MAX - tries) as nat;
            let r = self.next_u32();
            proof {
                assert(spec_next(gp) == (r, self@));
                assert(spec_draw(gp, bound, threshold, fuel) == (if r >= threshold || fuel == 0 {
                    ((r % bound) as u32, self@)
                } else {
                    spec_draw(self@, bound, threshold, (fuel - 1) as nat)
                }));
            }
            if r >= threshold || tries == u64::MAX {
                let out = r % bound;
                assert(fuel == 0 || r >= threshold);
                assert(spec_draw(gp, bound, threshold, fuel) == (out, self@));
                return out;
            }
            tries = tries + 1;
        }
    }
}

/// `x.rotate_right(r)`.
fn rotate_right(x: u32, r: u32) -> (y: u32)
    ensures
        y == rotr32(x, r),
{
    let k = r % 32;
    if k == 0 {
        x
    } else {
        (x >> k) | (x << (32 - k))
    }
}

} // verus!
