//! Narrowing conversions from a raw 128-bit generator core to every integer
//! width, and to `bool`.

use vstd::prelude::*;

use crate::Prng128 as Prng;

verus! {

/// A raw 128-bit generator core: one draw advances the state and yields one
/// 128-bit value, both pure functions of the state drawn from.
pub trait Prng128: Sized {
    /// The state after one raw draw.
    spec fn next_state(self) -> Self;

    /// The raw 128-bit value one draw yields.
    spec fn output(self) -> u128;

    fn draw(&mut self) -> (r: u128)
        ensures
            *final(self) == (*old(self)).next_state(),
            r == (*old(self)).output(),
    ;
}

impl<T: Prng128> Prng<i8> for T {
    open spec fn next_spec(self) -> (T, i8) {
        (self.next_state(), (self.output() >> 72) as i8)
    }

    fn next(&mut self) -> (r: i8) {
        let v = self.draw();
        #[verifier::truncate] ((v >> 72) as i8)
    }
}

impl<T: Prng128> Prng<i16> for T {
    open spec fn next_spec(self) -> (T, i16) {
        (self.next_state(), (self.output() >> 64) as i16)
    }

    fn next(&mut self) -> (r: i16) {
        let v = self.draw();
        #[verifier::truncate] ((v >> 64) as i16)
    }
}

impl<T: Prng128> Prng<i32> for T {
    open spec fn next_spec(self) -> (T, i32) {
        (self.next_state(), (self.output() >> 64) as i32)
    }

    fn next(&mut self) -> (r: i32) {
        let v = self.draw();
        #[verifier::truncate] ((v >> 64) as i32)
    }
}

impl<T: Prng128> Prng<i64> for T {
    open spec fn next_spec(self) -> (T, i64) {
        (self.next_state(), (self.output() >> 32) as i64)
    }

    fn next(&mut self) -> (r: i64) {
        let v = self.draw();
        #[verifier::truncate] ((v >> 32) as i64)
    }
}

impl<T: Prng128> Prng<i128> for T {
    open spec fn next_spec(self) -> (T, i128) {
        (self.next_state(), self.output() as i128)
    }

    fn next(&mut self) -> (r: i128) {
        let v = self.draw();
        #[verifier::truncate] (v as i128)
    }
}

impl<T: Prng128> Prng<u8> for T {
    open spec fn next_spec(self) -> (T, u8) {
        (self.next_state(), (self.output() >> 72) as u8)
    }

    fn next(&mut self) -> (r: u8) {
        let v = self.draw();
        #[verifier::truncate] ((v >> 72) as u8)
    }
}

impl<T: Prng128> Prng<u16> for T {
    open spec fn next_spec(self) -> (T, u16) {
        (self.next_state(), (self.output() >> 64) as u16)
    }

    fn next(&mut self) -> (r: u16) {
        let v = self.draw();
        #[verifier::truncate] ((v >> 64) as u16)
    }
}

impl<T: Prng128> Prng<u32> for T {
    open spec fn next_spec(self) -> (T, u32) {
        (self.next_state(), (self.output() >> 64) as u32)
    }

    fn next(&mut self) -> (r: u32) {
        let v = self.draw();
        #[verifier::truncate] ((v >> 64) as u32)
    }
}

impl<T: Prng128> Prng<u64> for T {
    open spec fn next_spec(self) -> (T, u64) {
        (self.next_state(), (self.output() >> 32) as u64)
    }

    fn next(&mut self) -> (r: u64) {
        let v = self.draw();
        #[verifier::truncate] ((v >> 32) as u64)
    }
}

impl<T: Prng128> Prng<u128> for T {
    open spec fn next_spec(self) -> (T, u128) {
        (self.next_state(), self.output())
    }

    fn next(&mut self) -> (r: u128) {
        self.draw()
    }
}

impl<T: Prng128> Prng<bool> for T {
    open spec fn next_spec(self) -> (T, bool) {
        (self.next_state(), self.output() & (1u128 << 64) > 0)
    }

    fn next(&mut self) -> (r: bool) {
        let v = self.draw() & (1u128 << 64);
        v > 0
    }
}

} // verus!
