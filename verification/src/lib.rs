//! A single-producer, single-consumer triple buffer together with the small
//! deterministic bit-mixing generators used to seed values stored in it.

mod buffer_state;
mod consumer;
mod prng_128;
mod prng_32;
mod prng_64;
mod producer;
pub mod prelude;
pub mod split_mix;
pub mod xorshiro;

use vstd::prelude::*;

pub use crate::split_mix::split_mix;
pub use crate::xorshiro::xorshiro;

pub use crate::buffer_state::BufferModel;
pub use crate::buffer_state::State;
pub use crate::buffer_state::claim_step;
pub use crate::buffer_state::commit_step;
pub use crate::buffer_state::read_value;
pub use crate::buffer_state::wf_model;
pub use crate::buffer_state::write_step;
pub use crate::consumer::TripleBufferConsumer;
pub use crate::producer::TripleBufferProducer;

verus! {

/// Flag bit packed into the shared register beside the slot index: set when
/// the middle slot holds a commit the consumer has not yet claimed.
pub const DIRTY: u8 = 0x8;

/// A generator with a 32-bit core that can deliver values of type `T`.
pub trait Prng32<T>: Sized {
    fn next(&mut self) -> T;
}

/// A generator with a 64-bit core that can deliver values of type `T`.
pub trait Prng64<T>: Sized {
    /// The generator state after one call of [`next`](Self::next), paired with
    /// the value that call delivers.
    spec fn next_spec(self) -> (Self, T);

    fn next(&mut self) -> (r: T)
        ensures
            (*final(self), r) == (*old(self)).next_spec(),
    ;
}

/// A generator with a 128-bit core that can deliver values of type `T`.
pub trait Prng128<T>: Sized {
    /// The generator state after one call of [`next`](Self::next), paired with
    /// the value that call delivers.
    spec fn next_spec(self) -> (Self, T);

    fn next(&mut self) -> (r: T)
        ensures
            (*final(self), r) == (*old(self)).next_spec(),
    ;
}

/// A triple buffer: one producer handle, one consumer handle, and the shared
/// state both of them rotate through. The producer mutates its back slot and
/// publishes it with [`TripleBufferProducer::commit`]; the consumer polls with
/// [`TripleBufferConsumer::data`] and always sees a fully written,
/// most-recent-or-earlier value. Neither operation ever blocks, retries or
/// fails.
pub struct TripleBuffer<T>(
    pub TripleBufferProducer<T>,
    pub TripleBufferConsumer<T>,
    pub State<T>,
);

impl<T> TripleBuffer<T> {
    /// Both handles are bound to the shared state, and the state carries the
    /// partition invariant.
    pub open spec fn wf(self) -> bool {
        &&& self.2.wf()
        &&& self.0.linked(self.2)
        &&& self.1.linked(self.2)
    }
}

impl<T: Default> Default for TripleBuffer<T> {
    /// Builds a buffer whose three slots each hold `T`'s default value, so the
    /// consumer's very first read is well defined even before any commit.
    fn default() -> (r: Self)
        ensures
            r.wf(),
            r.2@.back == 0,
            r.2@.mid == 1,
            r.2@.fwd == 2,
            !r.2@.dirty,
            forall|i: int|
                0 <= i < 3 ==> call_ensures(T::default, (), #[trigger] r.2@.slots[i]),
    {
        let state = State::new(T::default(), T::default(), T::default());
        TripleBuffer(TripleBufferProducer::new(), TripleBufferConsumer::new(), state)
    }
}

impl<T: Clone> TripleBuffer<T> {
    /// Builds a buffer whose three slots each hold an independent clone of
    /// `initial`, so the consumer's very first read is well defined even
    /// before any commit.
    pub fn new(initial: &T) -> (r: Self)
        ensures
            r.wf(),
            r.2@.back == 0,
            r.2@.mid == 1,
            r.2@.fwd == 2,
            !r.2@.dirty,
            forall|i: int| 0 <= i < 3 ==> cloned::<T>(*initial, #[trigger] r.2@.slots[i]),
    {
        let state = State::new(initial.clone(), initial.clone(), initial.clone());
        TripleBuffer(TripleBufferProducer::new(), TripleBufferConsumer::new(), state)
    }
}

} // verus!
