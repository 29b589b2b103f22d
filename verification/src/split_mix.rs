//! SplitMix generators: a wrapping additive state walk with an
//! xor-shift-multiply output finalizer, at 32, 64 and 128 bits.

use vstd::prelude::*;

use crate::prng_128 as p128;
use crate::prng_32 as p32;
use crate::prng_64 as p64;

verus! {

/// The 32-bit golden-ratio increment.
pub const SM32_ADD: u32 = 0x9e3779b9;

/// First 32-bit finalizer multiplier.
pub const SM32_MU1: u32 = 0xbf58476d;

/// Second 32-bit finalizer multiplier.
pub const SM32_MU2: u32 = 0x94d049bb;

/// The 64-bit golden-ratio increment.
pub const SM64_ADD: u64 = 0x9e3779b9_7f4a7c15;

/// First 64-bit finalizer multiplier.
pub const SM64_MU1: u64 = 0xbf58476d_1ce4e5b9;

/// Second 64-bit finalizer multiplier.
pub const SM64_MU2: u64 = 0x94d049bb_133111eb;

/// The 128-bit golden-ratio increment.
pub const SM128_ADD: u128 = 0x9e3779b9_7f4a7c15_243f6a88;

/// First 128-bit finalizer multiplier.
pub const SM128_MU1: u128 = 0xbf58476d_1ce4e5b9_b7e15162;

/// Second 128-bit finalizer multiplier.
pub const SM128_MU2: u128 = 0x94d049bb_133111eb_9e3779b9;

/// One 32-bit SplitMix state advance: the golden-ratio increment, wrapping.
pub open spec fn sm32_next_state(s: u32) -> u32 {
    s.wrapping_add(SM32_ADD)
}

/// The 32-bit finalizer: two xor-shift-multiply rounds and a last xor-shift.
pub open spec fn sm32_mix(z: u32) -> u32 {
    let a = (z ^ (z >> 15)).wrapping_mul(SM32_MU1);
    let b = (a ^ (a >> 13)).wrapping_mul(SM32_MU2);
    b ^ (b >> 16)
}

/// The value one 32-bit SplitMix draw yields from state `s`.
pub open spec fn sm32_output(s: u32) -> u32 {
    sm32_mix(sm32_next_state(s))
}

/// One 64-bit SplitMix state advance: the golden-ratio increment, wrapping.
pub open spec fn sm64_next_state(s: u64) -> u64 {
    s.wrapping_add(SM64_ADD)
}

/// The 64-bit finalizer: two xor-shift-multiply rounds and a last xor-shift.
pub open spec fn sm64_mix(z: u64) -> u64 {
    let a = (z ^ (z >> 30)).wrapping_mul(SM64_MU1);
    let b = (a ^ (a >> 27)).wrapping_mul(SM64_MU2);
    b ^ (b >> 31)
}

/// The value one 64-bit SplitMix draw yields from state `s`.
pub open spec fn sm64_output(s: u64) -> u64 {
    sm64_mix(sm64_next_state(s))
}

/// One 128-bit SplitMix state advance: the golden-ratio increment, wrapping.
pub open spec fn sm128_next_state(s: u128) -> u128 {
    s.wrapping_add(SM128_ADD)
}

/// The 128-bit finalizer: two xor-shift-multiply rounds and a last xor-shift.
pub open spec fn sm128_mix(z: u128) -> u128 {
    let a = (z ^ (z >> 60)).wrapping_mul(SM128_MU1);
    let b = (a ^ (a >> 54)).wrapping_mul(SM128_MU2);
    b ^ (b >> 62)
}

/// The value one 128-bit SplitMix draw yields from state `s`.
pub open spec fn sm128_output(s: u128) -> u128 {
    sm128_mix(sm128_next_state(s))
}

/// Builds a SplitMix generator over the given seed.
pub fn split_mix<T>(seed: T) -> (r: SplitMix<T>)
    ensures
        r.state == seed,
{
    SplitMix::new(seed)
}

/// A SplitMix generator: the state walks by a fixed wrapping increment, and
/// each draw finalizes the fresh state through an avalanching mixer.
#[derive(Copy, Clone, Ord, PartialOrd, PartialEq, Eq)]
pub struct SplitMix<T> {
    /// The walking state; each draw first advances it, then mixes it.
    pub state: T,
}

impl Default for SplitMix<u32> {
    fn default() -> (r: Self)
        ensures
            r.state == 0u32,
    {
        SplitMix { state: 0 }
    }
}

impl Default for SplitMix<u64> {
    fn default() -> (r: Self)
        ensures
            r.state == 0u64,
    {
        SplitMix { state: 0 }
    }
}

impl Default for SplitMix<u128> {
    fn default() -> (r: Self)
        ensures
            r.state == 0u128,
    {
        SplitMix { state: 0 }
    }
}

impl<T> SplitMix<T> {
    /// A generator whose state starts at `seed`.
    pub fn new(seed: T) -> (r: Self)
        ensures
            r.state == seed,
    {
        SplitMix { state: seed }
    }
}

impl SplitMix<u32> {
    /// Draws the next value, at whichever width the caller asks for.
    pub fn next<V>(&mut self) -> (r: V) where Self: p32::Prng<V>
        ensures
            (*final(self), r) == <Self as p32::Prng<V>>::next_spec(*old(self)),
    {
        p32::Prng::next_val(self)
    }
}

impl SplitMix<u64> {
    /// Draws the next value, at whichever width the caller asks for.
    pub fn next<V>(&mut self) -> (r: V) where Self: crate::Prng64<V>
        ensures
            (*final(self), r) == <Self as crate::Prng64<V>>::next_spec(*old(self)),
    {
        crate::Prng64::next(self)
    }
}

impl SplitMix<u128> {
    /// Draws the next value, at whichever width the caller asks for.
    pub fn next<V>(&mut self) -> (r: V) where Self: crate::Prng128<V>
        ensures
            (*final(self), r) == <Self as crate::Prng128<V>>::next_spec(*old(self)),
    {
        crate::Prng128::next(self)
    }
}

impl p32::Prng32 for SplitMix<u32> {
    open spec fn next_state(self) -> Self {
        SplitMix { state: sm32_next_state(self.state) }
    }

    open spec fn output(self) -> u32 {
        sm32_output(self.state)
    }

    fn draw(&mut self) -> (r: u32) {
        self.state = self.state.wrapping_add(SM32_ADD);
        let z = self.state;
        let z = (z ^ (z >> 15)).wrapping_mul(SM32_MU1);
        let z = (z ^ (z >> 13)).wrapping_mul(SM32_MU2);
        z ^ (z >> 16)
    }
}

impl p64::Prng64 for SplitMix<u64> {
    open spec fn next_state(self) -> Self {
        SplitMix { state: sm64_next_state(self.state) }
    }

    open spec fn output(self) -> u64 {
        sm64_output(self.state)
    }

    fn draw(&mut self) -> (r: u64) {
        self.state = self.state.wrapping_add(SM64_ADD);
        let z = self.state;
        let z = (z ^ (z >> 30)).wrapping_mul(SM64_MU1);
        let z = (z ^ (z >> 27)).wrapping_mul(SM64_MU2);
        z ^ (z >> 31)
    }
}

impl p128::Prng128 for SplitMix<u128> {
    open spec fn next_state(self) -> Self {
        SplitMix { state: sm128_next_state(self.state) }
    }

    open spec fn output(self) -> u128 {
        sm128_output(self.state)
    }

    fn draw(&mut self) -> (r: u128) {
        self.state = self.state.wrapping_add(SM128_ADD);
        let z = self.state;
        let z = (z ^ (z >> 60)).wrapping_mul(SM128_MU1);
        let z = (z ^ (z >> 54)).wrapping_mul(SM128_MU2);
        z ^ (z >> 62)
    }
}

/// A 32-bit SplitMix generator.
pub type SplitMix32 = SplitMix<u32>;

/// A 64-bit SplitMix generator.
pub type SplitMix64 = SplitMix<u64>;

/// A 128-bit SplitMix generator.
pub type SplitMix128 = SplitMix<u128>;

} // verus!
