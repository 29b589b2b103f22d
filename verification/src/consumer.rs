//! The reading side of the triple buffer.

use core::marker::PhantomData;

use vstd::prelude::*;

use crate::buffer_state::State;
use crate::buffer_state::claim_step;
use crate::buffer_state::read_value;

verus! {

/// The consumer handle: owns the forward slot of a [`State`] and lazily claims
/// newly committed data through the shared register. Exactly one consumer
/// exists per buffer; it holds its forward index privately and touches the
/// shared state only through the methods below.
pub struct TripleBufferConsumer<T> {
    /// The index of the forward slot, the one currently being read.
    fwd: u8,
    marker: PhantomData<T>,
}

impl<T> TripleBufferConsumer<T> {
    /// The forward slot index held by this handle.
    pub closed spec fn index(self) -> int {
        self.fwd as int
    }

    /// The handle is bound to `state`: its private forward index agrees with
    /// the ghost mirror kept in the shared state.
    pub open spec fn linked(self, state: State<T>) -> bool {
        self.index() == state@.fwd
    }

    /// A fresh handle over slot 2, matching a freshly built [`State`].
    pub(crate) fn new() -> (r: Self)
        ensures
            r.index() == 2,
    {
        TripleBufferConsumer { fwd: 2, marker: PhantomData }
    }

    /// Reads the freshest committed value. A cheap check of the register
    /// first: if the dirty flag is set, the forward index is exchanged into
    /// the register and the register's previous slot, which holds the most
    /// recent commit, is adopted; if not, nothing rotates and the call is
    /// read-only. Either way the forward slot's contents are returned.
    pub fn data<'a>(&mut self, state: &'a mut State<T>) -> (r: &'a T)
        requires
            old(state).wf(),
            old(self).linked(*old(state)),
        ensures
            final(state).wf(),
            final(self).linked(*final(state)),
            final(state)@ == claim_step(old(state)@),
            *r == read_value(final(state)@),
    {
        if state.is_dirty() {
            self.fwd = state.rotate_claim(self.fwd);
        }
        state.slot_ref(self.fwd)
    }
}

} // verus!
