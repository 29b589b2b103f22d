//! Widening and narrowing conversions from a raw 64-bit generator core to
//! every integer width, and to `bool`.

use vstd::prelude::*;

use crate::Prng64 as Prng;

verus! {

/// A raw 64-bit generator core: one draw advances the state and yields one
/// 64-bit value, both pure functions of the state drawn from.
pub trait Prng64: Sized {
    /// The state after one raw draw.
    spec fn next_state(self) -> Self;

    /// The raw 64-bit value one draw yields.
    spec fn output(self) -> u64;

    fn draw(&mut self) -> (r: u64)
        ensures
            *final(self) == (*old(self)).next_state(),
            r == (*old(self)).output(),
    ;
}

impl<T: Prng64> Prng<i8> for T {
    open spec fn next_spec(self) -> (T, i8) {
        (self.next_state(), (self.output() >> 48) as i8)
    }

    fn next(&mut self) -> (r: i8) {
        let v = self.draw();
        #[verifier::truncate] ((v >> 48) as i8)
    }
}

impl<T: Prng64> Prng<i16> for T {
    open spec fn next_spec(self) -> (T, i16) {
        (self.next_state(), (self.output() >> 37) as i16)
    }

    fn next(&mut self) -> (r: i16) {
        let v = self.draw();
        #[verifier::truncate] ((v >> 37) as i16)
    }
}

impl<T: Prng64> Prng<i32> for T {
    open spec fn next_spec(self) -> (T, i32) {
        (self.next_state(), (self.output() >> 16) as i32)
    }

    fn next(&mut self) -> (r: i32) {
        let v = self.draw();
        #[verifier::truncate] ((v >> 16) as i32)
    }
}

impl<T: Prng64> Prng<i64> for T {
    open spec fn next_spec(self) -> (T, i64) {
        (self.next_state(), self.output() as i64)
    }

    fn next(&mut self) -> (r: i64) {
        let v = self.draw();
        #[verifier::truncate] (v as i64)
    }
}

impl<T: Prng64> Prng<i128> for T {
    open spec fn next_spec(self) -> (T, i128) {
        let low = self.output() as u128;
        let high = self.next_state().output() as u128;
        (self.next_state().next_state(), ((high << 64) | low) as i128)
    }

    fn next(&mut self) -> (r: i128) {
        let l = self.draw() as u128;
        let h = self.draw() as u128;
        #[verifier::truncate] (((h << 64) | l) as i128)
    }
}

impl<T: Prng64> Prng<u8> for T {
    open spec fn next_spec(self) -> (T, u8) {
        (self.next_state(), (self.output() >> 48) as u8)
    }

    fn next(&mut self) -> (r: u8) {
        let v = self.draw();
        #[verifier::truncate] ((v >> 48) as u8)
    }
}

impl<T: Prng64> Prng<u16> for T {
    open spec fn next_spec(self) -> (T, u16) {
        (self.next_state(), (self.output() >> 37) as u16)
    }

    fn next(&mut self) -> (r: u16) {
        let v = self.draw();
        #[verifier::truncate] ((v >> 37) as u16)
    }
}

impl<T: Prng64> Prng<u32> for T {
    open spec fn next_spec(self) -> (T, u32) {
        (self.next_state(), (self.output() >> 16) as u32)
    }

    fn next(&mut self) -> (r: u32) {
        let v = self.draw();
        #[verifier::truncate] ((v >> 16) as u32)
    }
}

impl<T: Prng64> Prng<u64> for T {
    open spec fn next_spec(self) -> (T, u64) {
        (self.next_state(), self.output())
    }

    fn next(&mut self) -> (r: u64) {
        self.draw()
    }
}

impl<T: Prng64> Prng<u128> for T {
    open spec fn next_spec(self) -> (T, u128) {
        let low = self.output() as u128;
        let high = self.next_state().output() as u128;
        (self.next_state().next_state(), (high << 64) | low)
    }

    fn next(&mut self) -> (r: u128) {
        let l = self.draw() as u128;
        let h = self.draw() as u128;
        (h << 64) | l
    }
}

impl<T: Prng64> Prng<bool> for T {
    open spec fn next_spec(self) -> (T, bool) {
        (self.next_state(), self.output() & (1u64 << 32) > 0)
    }

    fn next(&mut self) -> (r: bool) {
        let v = self.draw() & (1u64 << 32);
        v > 0
    }
}

} // verus!
