//! Widening and narrowing conversions from a raw 32-bit generator core to
//! every integer width, and to `bool`.

use vstd::prelude::*;

verus! {

/// A generator with a 32-bit core that can deliver values of type `T`.
pub trait Prng<T>: Sized {
    /// The generator state after one call of [`next_val`](Self::next_val),
    /// paired with the value that call delivers.
    spec fn next_spec(self) -> (Self, T);

    fn next_val(&mut self) -> (r: T)
        ensures
            (*final(self), r) == (*old(self)).next_spec(),
    ;
}

/// A raw 32-bit generator core: one draw advances the state and yields one
/// 32-bit value, both pure functions of the state drawn from.
pub trait Prng32: Sized {
    /// The state after one raw draw.
    spec fn next_state(self) -> Self;

    /// The raw 32-bit value one draw yields.
    spec fn output(self) -> u32;

    fn draw(&mut self) -> (r: u32)
        ensures
            *final(self) == (*old(self)).next_state(),
            r == (*old(self)).output(),
    ;
}

impl<T: Prng32> Prng<i8> for T {
    open spec fn next_spec(self) -> (T, i8) {
        (self.next_state(), (self.output() >> 24) as i8)
    }

    fn next_val(&mut self) -> (r: i8) {
        let v = self.draw();
        #[verifier::truncate] ((v >> 24) as i8)
    }
}

impl<T: Prng32> Prng<i16> for T {
    open spec fn next_spec(self) -> (T, i16) {
        (self.next_state(), (self.output() >> 16) as i16)
    }

    fn next_val(&mut self) -> (r: i16) {
        let v = self.draw();
        #[verifier::truncate] ((v >> 16) as i16)
    }
}

impl<T: Prng32> Prng<i32> for T {
    open spec fn next_spec(self) -> (T, i32) {
        (self.next_state(), self.output() as i32)
    }

    fn next_val(&mut self) -> (r: i32) {
        let v = self.draw();
        #[verifier::truncate] (v as i32)
    }
}

impl<T: Prng32> Prng<i64> for T {
    open spec fn next_spec(self) -> (T, i64) {
        let low = self.output() as u64;
        let high = self.next_state().output() as u64;
        (self.next_state().next_state(), ((high << 32) | low) as i64)
    }

    fn next_val(&mut self) -> (r: i64) {
        let l = self.draw() as u64;
        let h = self.draw() as u64;
        #[verifier::truncate] (((h << 32) | l) as i64)
    }
}

impl<T: Prng32> Prng<i128> for T {
    open spec fn next_spec(self) -> (T, i128) {
        let s1 = self.next_state();
        let s2 = s1.next_state();
        let s3 = s2.next_state();
        let ll = self.output() as u128;
        let lh = s1.output() as u128;
        let hl = s2.output() as u128;
        let hh = s3.output() as u128;
        (s3.next_state(), (((hh << 96) | (hl << 64) | (lh << 32) | ll) as i128))
    }

    fn next_val(&mut self) -> (r: i128) {
        let ll = self.draw() as u128;
        let lh = self.draw() as u128;
        let hl = self.draw() as u128;
        let hh = self.draw() as u128;
        #[verifier::truncate] (((hh << 96) | (hl << 64) | (lh << 32) | ll) as i128)
    }
}

impl<T: Prng32> Prng<u8> for T {
    open spec fn next_spec(self) -> (T, u8) {
        (self.next_state(), (self.output() >> 24) as u8)
    }

    fn next_val(&mut self) -> (r: u8) {
        let v = self.draw();
        #[verifier::truncate] ((v >> 24) as u8)
    }
}

impl<T: Prng32> Prng<u16> for T {
    open spec fn next_spec(self) -> (T, u16) {
        (self.next_state(), (self.output() >> 16) as u16)
    }

    fn next_val(&mut self) -> (r: u16) {
        let v = self.draw();
        #[verifier::truncate] ((v >> 16) as u16)
    }
}

impl<T: Prng32> Prng<u32> for T {
    open spec fn next_spec(self) -> (T, u32) {
        (self.next_state(), self.output())
    }

    fn next_val(&mut self) -> (r: u32) {
        self.draw()
    }
}

impl<T: Prng32> Prng<u64> for T {
    open spec fn next_spec(self) -> (T, u64) {
        let low = self.output() as u64;
        let high = self.next_state().output() as u64;
        (self.next_state().next_state(), (high << 32) | low)
    }

    fn next_val(&mut self) -> (r: u64) {
        let l = self.draw() as u64;
        let h = self.draw() as u64;
        (h << 32) | l
    }
}

impl<T: Prng32> Prng<u128> for T {
    open spec fn next_spec(self) -> (T, u128) {
        let s1 = self.next_state();
        let s2 = s1.next_state();
        let s3 = s2.next_state();
        let ll = self.output() as u128;
        let lh = s1.output() as u128;
        let hl = s2.output() as u128;
        let hh = s3.output() as u128;
        (s3.next_state(), (hh << 96) | (hl << 64) | (lh << 32) | ll)
    }

    fn next_val(&mut self) -> (r: u128) {
        let ll = self.draw() as u128;
        let lh = self.draw() as u128;
        let hl = self.draw() as u128;
        let hh = self.draw() as u128;
        (hh << 96) | (hl << 64) | (lh << 32) | ll
    }
}

impl<T: Prng32> Prng<bool> for T {
    open spec fn next_spec(self) -> (T, bool) {
        (self.next_state(), self.output() & (1u32 << 16) > 0)
    }

    fn next_val(&mut self) -> (r: bool) {
        let v = self.draw() & (1u32 << 16);
        v > 0
    }
}

} // verus!
