//! The writing side of the triple buffer.

use core::marker::PhantomData;

use vstd::prelude::*;

use crate::buffer_state::State;
use crate::buffer_state::commit_step;
use crate::buffer_state::write_step;

verus! {

/// The producer handle: owns the back slot of a [`State`] and publishes it by
/// rotating indices through the shared register. Exactly one producer exists
/// per buffer; it holds its back index privately and touches the shared state
/// only through the methods below.
pub struct TripleBufferProducer<T> {
    /// The index of the back slot, the one currently being written.
    bck: u8,
    marker: PhantomData<T>,
}

impl<T> TripleBufferProducer<T> {
    /// The back slot index held by this handle.
    pub closed spec fn index(self) -> int {
        self.bck as int
    }

    /// The handle is bound to `state`: its private back index agrees with the
    /// ghost mirror kept in the shared state.
    pub open spec fn linked(self, state: State<T>) -> bool {
        self.index() == state@.back
    }

    /// A fresh handle over slot 0, matching a freshly built [`State`].
    pub(crate) fn new() -> (r: Self)
        ensures
            r.index() == 0,
    {
        TripleBufferProducer { bck: 0, marker: PhantomData }
    }

    /// Publishes the back slot: exchanges `(back-index | DIRTY)` into the
    /// shared register and adopts the register's previous index, dirty bit
    /// cleared, as the new back slot. Slot contents are untouched, and the
    /// consumer's slot is never taken.
    pub fn commit(&mut self, state: &mut State<T>)
        requires
            old(state).wf(),
            old(self).linked(*old(state)),
        ensures
            final(state).wf(),
            final(self).linked(*final(state)),
            final(state)@ == commit_step(old(state)@),
    {
        self.bck = state.rotate_commit(self.bck);
    }

    /// Reads the back slot, the producer's private scratch value. The spec
    /// leaves open whether a commit cycle overwrites it or accumulates state:
    /// what is read here is simply whatever the last write (or rotation) left.
    pub fn data<'a>(&self, state: &'a State<T>) -> (r: &'a T)
        requires
            state.wf(),
            self.linked(*state),
        ensures
            *r == state@.slots[self.index()],
    {
        state.slot_ref(self.bck)
    }

    /// Stores `value` into the back slot. Nothing is published until the next
    /// [`commit`](Self::commit); only the back slot changes.
    pub fn write(&self, state: &mut State<T>, value: T)
        requires
            old(state).wf(),
            self.linked(*old(state)),
        ensures
            final(state).wf(),
            self.linked(*final(state)),
            final(state)@ == write_step(old(state)@, value),
    {
        state.slot_set(self.bck, value);
    }
}

} // verus!
