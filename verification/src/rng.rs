//! The background engine's own pseudo-random generator: a 32-bit-state
//! xoroshiro generator split into two 16-bit words, seeded deterministically,
//! so layer drift is reproducible given a seed.

use vstd::prelude::*;

verus! {

/// The low word of a packed state.
pub open spec fn word0(s: u32) -> u16 {
    (s % 0x10000) as u16
}

/// The high word of a packed state.
pub open spec fn word1(s: u32) -> u16 {
    (s / 0x10000) as u16
}

/// The value the generator emits at state `s`: the rotated sum of the two
/// words, plus the low word, all modulo one word.
pub open spec fn rng_out(s: u32) -> u16 {
    let s0 = word0(s);
    let s1 = word1(s);
    let sum = (((s0 as int) + (s1 as int)) % 0x10000) as u16;
    let rot = (sum << 9) | (sum >> 7);
    (((rot as int) + (s0 as int)) % 0x10000) as u16
}

/// The successor of a generator state: the xoroshiro word shuffle with
/// shifts of 13, 5 and 10.
pub open spec fn rng_step(s: u32) -> u32 {
    let s0 = word0(s);
    let s1x = word1(s) ^ s0;
    let n0 = ((s0 << 13) | (s0 >> 3)) ^ s1x ^ (s1x << 5);
    let n1 = (s1x << 10) | (s1x >> 6);
    ((n1 as int) * 0x10000 + (n0 as int)) as u32
}

/// The state a seed starts from; the all-zero state is a fixed point of the
/// step function, so it is replaced by an arbitrary odd constant.
pub open spec fn rng_init(seed: u32) -> u32 {
    if seed == 0 {
        0x9E3779B9u32
    } else {
        seed
    }
}

/// The value drawn from `[lo, hi)` at state `s`.
pub open spec fn rng_range_value(s: u32, lo: int, hi: int) -> int {
    lo + (rng_out(s) as int) % (hi - lo)
}

/// A deterministic generator for per-layer scroll jitter.
#[derive(Clone, Copy, PartialEq, Eq, Structural, Debug)]
pub struct JitterRng {
    pub state: u32,
}

impl JitterRng {
    pub fn new(seed: u32) -> (r: JitterRng)
        ensures
            r.state == rng_init(seed),
    {
        if seed == 0 {
            JitterRng { state: 0x9E3779B9 }
        } else {
            JitterRng { state: seed }
        }
    }

    /// Emits the current state's word and advances the state.
    pub fn next_u16(&mut self) -> (r: u16)
        ensures
            r == rng_out(old(self).state),
            final(self).state == rng_step(old(self).state),
    {
        let s = self.state;
        let s0 = (s % 0x10000) as u16;
        let s1 = (s / 0x10000) as u16;
        let sum = (((s0 as u32) + (s1 as u32)) % 0x10000) as u16;
        let rot = (sum << 9u32) | (sum >> 7u32);
        let out = (((rot as u32) + (s0 as u32)) % 0x10000) as u16;

        let s1x = s1 ^ s0;
        let n0 = ((s0 << 13u32) | (s0 >> 3u32)) ^ s1x ^ (s1x << 5u32);
        let n1 = (s1x << 10u32) | (s1x >> 6u32);
        self.state = (n1 as u32) * 0x10000 + (n0 as u32);
        out
    }

    /// Draws a value uniformly positioned in `[lo, hi)`.
    pub fn range(&mut self, lo: i32, hi: i32) -> (r: i32)
        requires
            lo < hi,
            -0x3FFF_FFFF <= lo,
            hi <= 0x3FFF_FFFF,
        ensures
            final(self).state == rng_step(old(self).state),
            r == rng_range_value(old(self).state, lo as int, hi as int),
            lo <= r < hi,
    {
        let span = (hi - lo) as u32;
        let v = self.next_u16();
        let off = (v as u32) % span;
        lo + off as i32
    }
}

} // verus!
