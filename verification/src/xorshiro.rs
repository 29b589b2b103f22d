//! Xorshiro generators: an xorshift-rotate state walk with a
//! multiply-rotate-multiply output scrambler, at 32, 64 and 128 bits, seeded
//! through one SplitMix draw so that poor raw seeds are spread out first.

use vstd::prelude::*;

use crate::prng_128 as p128;
use crate::prng_32 as p32;
use crate::prng_64 as p64;
use crate::split_mix::SplitMix;
use crate::split_mix::sm128_output;
use crate::split_mix::sm32_output;
use crate::split_mix::sm64_output;

verus! {

/// One 32-bit xorshift-rotate state advance.
pub open spec fn xs32_step(x: u32) -> u32 {
    let a = x ^ (x << 13);
    let b = a ^ (a >> 17);
    let c = b ^ (b << 5);
    (c << 22) | (c >> 10)
}

/// The 32-bit output scrambler applied to the state before it advances.
pub open spec fn xs32_output(s: u32) -> u32 {
    let t = s.wrapping_mul(5);
    let t = (t << 7) | (t >> 25);
    t.wrapping_mul(9)
}

/// One 64-bit xorshift-rotate state advance.
pub open spec fn xs64_step(x: u64) -> u64 {
    let a = x ^ (x << 13);
    let b = a ^ (a >> 7);
    let c = b ^ (b << 17);
    (c << 45) | (c >> 19)
}

/// The 64-bit output scrambler applied to the state before it advances.
pub open spec fn xs64_output(s: u64) -> u64 {
    let t = s.wrapping_mul(5);
    let t = (t << 7) | (t >> 57);
    t.wrapping_mul(9)
}

/// One 128-bit xorshift-rotate state advance.
pub open spec fn xs128_step(x: u128) -> u128 {
    let a = x ^ (x << 17);
    let b = a ^ (a >> 13);
    let c = b ^ (b << 7);
    (c << 64) | (c >> 64)
}

/// The 128-bit output scrambler applied to the state before it advances.
pub open spec fn xs128_output(s: u128) -> u128 {
    let t = s.wrapping_mul(5);
    let t = (t << 7) | (t >> 121);
    t.wrapping_mul(9)
}

/// Seeding a Xorshiro generator of the matching width.
pub trait XorshiroNew<T>: Sized {
    /// The generator that seeding with `seed` builds.
    spec fn make_spec(seed: T) -> Xorshiro<T>;

    fn make(seed: T) -> (r: Xorshiro<T>)
        ensures
            r == Self::make_spec(seed),
    ;
}

impl XorshiroNew<u32> for Xorshiro<u32> {
    open spec fn make_spec(seed: u32) -> Xorshiro<u32> {
        Xorshiro { seed: sm32_output(seed) }
    }

    fn make(seed: u32) -> (r: Xorshiro<u32>) {
        let mut mixer = SplitMix::new(seed);
        Xorshiro32 { seed: mixer.next() }
    }
}

impl XorshiroNew<u64> for Xorshiro<u64> {
    open spec fn make_spec(seed: u64) -> Xorshiro<u64> {
        Xorshiro { seed: sm64_output(seed) }
    }

    fn make(seed: u64) -> (r: Xorshiro<u64>) {
        let mut mixer = SplitMix::new(seed);
        Xorshiro64 { seed: mixer.next() }
    }
}

impl XorshiroNew<u128> for Xorshiro<u128> {
    open spec fn make_spec(seed: u128) -> Xorshiro<u128> {
        Xorshiro { seed: sm128_output(seed) }
    }

    fn make(seed: u128) -> (r: Xorshiro<u128>) {
        let mut mixer = SplitMix::new(seed);
        Xorshiro128 { seed: mixer.next() }
    }
}

/// Builds a Xorshiro generator seeded with `seed`.
pub fn xorshiro<T>(seed: T) -> (r: Xorshiro<T>) where Xorshiro<T>: XorshiroNew<T>
    ensures
        r == <Xorshiro<T> as XorshiroNew<T>>::make_spec(seed),
{
    Xorshiro::<T>::new(seed)
}

/// A Xorshiro generator: each draw scrambles the current state into the output
/// value, then advances the state by an xorshift-rotate walk.
#[derive(Copy, Clone, Ord, PartialOrd, PartialEq, Eq)]
pub struct Xorshiro<T> {
    /// The walking state; each draw scrambles it, then advances it.
    pub seed: T,
}

impl<T> Xorshiro<T> where Xorshiro<T>: XorshiroNew<T> {
    fn new(seed: T) -> (r: Self)
        ensures
            r == <Xorshiro<T> as XorshiroNew<T>>::make_spec(seed),
    {
        Xorshiro::make(seed)
    }
}

impl Xorshiro<u32> {
    /// One xorshift-rotate advance of a 32-bit state.
    fn xorshiro(x: u32) -> (r: u32)
        ensures
            r == xs32_step(x),
    {
        let x = x ^ (x << 13);
        let x = x ^ (x >> 17);
        let x = x ^ (x << 5);
        (x << 22) | (x >> 10)
    }

    /// Draws the next value, at whichever width the caller asks for.
    pub fn next<V>(&mut self) -> (r: V) where Self: p32::Prng<V>
        ensures
            (*final(self), r) == <Self as p32::Prng<V>>::next_spec(*old(self)),
    {
        p32::Prng::next_val(self)
    }
}

impl Xorshiro<u64> {
    /// One xorshift-rotate advance of a 64-bit state.
    fn xorshiro(x: u64) -> (r: u64)
        ensures
            r == xs64_step(x),
    {
        let x = x ^ (x << 13);
        let x = x ^ (x >> 7);
        let x = x ^ (x << 17);
        (x << 45) | (x >> 19)
    }

    /// Draws the next value, at whichever width the caller asks for.
    pub fn next<V>(&mut self) -> (r: V) where Self: crate::Prng64<V>
        ensures
            (*final(self), r) == <Self as crate::Prng64<V>>::next_spec(*old(self)),
    {
        crate::Prng64::next(self)
    }
}

impl Xorshiro<u128> {
    /// One xorshift-rotate advance of a 128-bit state.
    fn xorshiro(x: u128) -> (r: u128)
        ensures
            r == xs128_step(x),
    {
        let x = x ^ (x << 17);
        let x = x ^ (x >> 13);
        let x = x ^ (x << 7);
        (x << 64) | (x >> 64)
    }

    /// Draws the next value, at whichever width the caller asks for.
    pub fn next<V>(&mut self) -> (r: V) where Self: crate::Prng128<V>
        ensures
            (*final(self), r) == <Self as crate::Prng128<V>>::next_spec(*old(self)),
    {
        crate::Prng128::next(self)
    }
}

impl Default for Xorshiro<u32> {
    /// A generator seeded from the zero seed.
    fn default() -> (r: Self)
        ensures
            r.seed == sm32_output(0),
    {
        let mut mixer = SplitMix::new(0u32);
        Xorshiro { seed: mixer.next() }
    }
}

impl Default for Xorshiro<u64> {
    /// A generator seeded from the zero seed.
    fn default() -> (r: Self)
        ensures
            r.seed == sm64_output(0),
    {
        let mut mixer = SplitMix::new(0u64);
        Xorshiro { seed: mixer.next() }
    }
}

impl Default for Xorshiro<u128> {
    /// A generator seeded from the zero seed.
    fn default() -> (r: Self)
        ensures
            r.seed == sm128_output(0),
    {
        let mut mixer = SplitMix::new(0u128);
        Xorshiro { seed: mixer.next() }
    }
}

impl p32::Prng32 for Xorshiro<u32> {
    open spec fn next_state(self) -> Self {
        Xorshiro { seed: xs32_step(self.seed) }
    }

    open spec fn output(self) -> u32 {
        xs32_output(self.seed)
    }

    fn draw(&mut self) -> (r: u32) {
        let t = self.seed.wrapping_mul(5);
        let t = (t << 7) | (t >> 25);
        let x = t.wrapping_mul(9);
        self.seed = Self::xorshiro(self.seed);
        x
    }
}

impl p64::Prng64 for Xorshiro<u64> {
    open spec fn next_state(self) -> Self {
        Xorshiro { seed: xs64_step(self.seed) }
    }

    open spec fn output(self) -> u64 {
        xs64_output(self.seed)
    }

    fn draw(&mut self) -> (r: u64) {
        let t = self.seed.wrapping_mul(5);
        let t = (t << 7) | (t >> 57);
        let x = t.wrapping_mul(9);
        self.seed = Self::xorshiro(self.seed);
        x
    }
}

impl p128::Prng128 for Xorshiro<u128> {
    open spec fn next_state(self) -> Self {
        Xorshiro { seed: xs128_step(self.seed) }
    }

    open spec fn output(self) -> u128 {
        xs128_output(self.seed)
    }

    fn draw(&mut self) -> (r: u128) {
        let t = self.seed.wrapping_mul(5);
        let t = (t << 7) | (t >> 121);
        let x = t.wrapping_mul(9);
        self.seed = Self::xorshiro(self.seed);
        x
    }
}

/// A 32-bit Xorshiro generator.
pub type Xorshiro32 = Xorshiro<u32>;

/// A 64-bit Xorshiro generator.
pub type Xorshiro64 = Xorshiro<u64>;

/// A 128-bit Xorshiro generator.
pub type Xorshiro128 = Xorshiro<u128>;

} // verus!
