//! Shared storage of the triple buffer: three slots and the packed register.
//!
//! The register packs a slot index (low bits, always `0`, `1` or `2`) together
//! with the [`DIRTY`](crate::DIRTY) flag bit. At every instant the producer's
//! back index, the register's index and the consumer's forward index are
//! pairwise distinct and together cover `{0, 1, 2}`; that partition is the
//! whole safety argument of the protocol, and it is carried here as a ghost
//! mirror of the two handle indices so that every operation can be verified
//! against it.

use vstd::prelude::*;

use crate::DIRTY;

verus! {

/// Mathematical model of the whole buffer: the three slot contents, the three
/// role indices, and the dirty flag.
pub struct BufferModel<T> {
    /// Contents of the three slots, by slot index.
    pub slots: Seq<T>,
    /// Index of the slot the producer is writing (its back slot).
    pub back: int,
    /// Index of the slot held by the shared register (the middle slot).
    pub mid: int,
    /// Index of the slot the consumer is reading (its forward slot).
    pub fwd: int,
    /// Whether the middle slot holds a commit not yet claimed by the consumer.
    pub dirty: bool,
}

/// The partition invariant: three slots, and the three role indices are
/// pairwise distinct members of `{0, 1, 2}`.
pub open spec fn wf_model<T>(m: BufferModel<T>) -> bool {
    &&& m.slots.len() == 3
    &&& 0 <= m.back < 3
    &&& 0 <= m.mid < 3
    &&& 0 <= m.fwd < 3
    &&& m.back != m.mid
    &&& m.back != m.fwd
    &&& m.mid != m.fwd
}

/// One producer commit: the back slot moves into the register, marked dirty,
/// and the producer adopts the register's previous slot. No slot contents
/// change.
pub open spec fn commit_step<T>(m: BufferModel<T>) -> BufferModel<T> {
    BufferModel { back: m.mid, mid: m.back, dirty: true, ..m }
}

/// One consumer read: if the register is dirty, the forward slot moves into
/// the register (now clean) and the consumer adopts the register's previous
/// slot; otherwise nothing changes. No slot contents change.
pub open spec fn claim_step<T>(m: BufferModel<T>) -> BufferModel<T> {
    if m.dirty {
        BufferModel { fwd: m.mid, mid: m.fwd, dirty: false, ..m }
    } else {
        m
    }
}

/// One producer write into its back slot.
pub open spec fn write_step<T>(m: BufferModel<T>, value: T) -> BufferModel<T> {
    BufferModel { slots: m.slots.update(m.back, value), ..m }
}

/// What the consumer sees: the contents of its forward slot.
pub open spec fn read_value<T>(m: BufferModel<T>) -> T {
    m.slots[m.fwd]
}

/// The partition invariant covers the whole slot pool: in a well-formed model
/// the three role indices, pairwise distinct, together make up exactly
/// `{0, 1, 2}`.
pub proof fn lemma_partition_covers_pool<T>(m: BufferModel<T>)
    requires
        wf_model(m),
    ensures
        set![m.back, m.mid, m.fwd] == set![0int, 1int, 2int],
{
    assert(set![m.back, m.mid, m.fwd] =~= set![0int, 1int, 2int]);
}

/// A commit permutes the three role indices, so the partition invariant is
/// preserved; it touches no slot contents and never takes the consumer's slot.
pub proof fn lemma_commit_preserves_partition<T>(m: BufferModel<T>)
    requires
        wf_model(m),
    ensures
        wf_model(commit_step(m)),
        commit_step(m).slots == m.slots,
        commit_step(m).fwd == m.fwd,
{
}

/// A consumer read permutes the three role indices, so the partition invariant
/// is preserved; it touches no slot contents and never takes the producer's
/// slot.
pub proof fn lemma_claim_preserves_partition<T>(m: BufferModel<T>)
    requires
        wf_model(m),
    ensures
        wf_model(claim_step(m)),
        claim_step(m).slots == m.slots,
        claim_step(m).back == m.back,
{
}

/// A producer write changes only the back slot: in particular it can never
/// overwrite the slot the consumer is reading, nor the committed middle slot.
pub proof fn lemma_write_preserves_partition<T>(m: BufferModel<T>, value: T)
    requires
        wf_model(m),
    ensures
        wf_model(write_step(m, value)),
        write_step(m, value).slots[m.fwd] == m.slots[m.fwd],
        write_step(m, value).slots[m.mid] == m.slots[m.mid],
        write_step(m, value).slots[m.back] == value,
{
}

/// A claiming read returns exactly the contents the last commit left in the
/// middle slot, whole, and leaves the register clean: the consumer never sees
/// a slot that anyone else is still writing.
pub proof fn lemma_claim_reads_committed<T>(m: BufferModel<T>)
    requires
        wf_model(m),
        m.dirty,
    ensures
        read_value(claim_step(m)) == m.slots[m.mid],
        !claim_step(m).dirty,
{
}

/// Reading is idempotent: a consumer read always leaves the register clean, so
/// a second read with no commit in between rotates nothing and returns the
/// same contents.
pub proof fn lemma_read_idempotent<T>(m: BufferModel<T>)
    requires
        wf_model(m),
    ensures
        claim_step(claim_step(m)) == claim_step(m),
        read_value(claim_step(claim_step(m))) == read_value(claim_step(m)),
{
}

/// A clean register means a read returns the forward slot untouched: before
/// any commit, the consumer sees exactly the value the buffer was built with.
pub proof fn lemma_clean_read_is_stable<T>(m: BufferModel<T>)
    requires
        wf_model(m),
        !m.dirty,
    ensures
        claim_step(m) == m,
        read_value(claim_step(m)) == m.slots[m.fwd],
{
}

/// Publishing works end to end: writing `value`, committing it, and then
/// reading hands the consumer exactly `value`.
pub proof fn lemma_commit_publishes<T>(m: BufferModel<T>, value: T)
    requires
        wf_model(m),
    ensures
        read_value(claim_step(commit_step(write_step(m, value)))) == value,
{
}

/// Storage shared between the two handles: exactly three slots plus the
/// register packing the middle slot's index and the dirty flag. The two ghost
/// fields mirror the indices held by the producer and consumer handles, so
/// that the partition invariant can be stated over this one value.
pub struct State<T> {
    pub(crate) slot0: T,
    pub(crate) slot1: T,
    pub(crate) slot2: T,
    /// The register: slot index in the low two bits, `DIRTY` in bit 3.
    pub(crate) mid: u8,
    /// Ghost mirror of the producer handle's back index.
    pub(crate) back: Ghost<u8>,
    /// Ghost mirror of the consumer handle's forward index.
    pub(crate) fwd: Ghost<u8>,
}

impl<T> View for State<T> {
    type V = BufferModel<T>;

    closed spec fn view(&self) -> BufferModel<T> {
        BufferModel {
            slots: seq![self.slot0, self.slot1, self.slot2],
            back: self.back@ as int,
            mid: (self.mid & 0x7) as int,
            fwd: self.fwd@ as int,
            dirty: self.mid & DIRTY == DIRTY,
        }
    }
}

impl<T> State<T> {
    /// The register never carries bits beyond the index and the dirty flag.
    pub closed spec fn reg_ok(self) -> bool {
        self.mid & 0xf0 == 0
    }

    /// Well-formed shared state: a tidy register and the partition invariant.
    pub open spec fn wf(self) -> bool {
        self.reg_ok() && wf_model(self@)
    }

    /// Contents of the slot with index `i`.
    pub(crate) fn slot_ref(&self, i: u8) -> (r: &T)
        requires
            i < 3,
        ensures
            *r == self@.slots[i as int],
    {
        match i {
            0 => &self.slot0,
            1 => &self.slot1,
            _ => &self.slot2,
        }
    }

    /// Builds the shared state in its initial configuration: the register
    /// holds slot 1, dirty flag clear, the producer's mirror slot 0, the
    /// consumer's mirror slot 2, and the three slots hold the given values.
    pub(crate) fn new(s0: T, s1: T, s2: T) -> (r: Self)
        ensures
            r.wf(),
            r@ == (BufferModel::<T> {
                slots: seq![s0, s1, s2],
                back: 0,
                mid: 1,
                fwd: 2,
                dirty: false,
            }),
    {
        proof {
            assert(1u8 & 0x7 == 1 && 1u8 & DIRTY != DIRTY && 1u8 & 0xf0 == 0) by (bit_vector);
        }
        State { slot0: s0, slot1: s1, slot2: s2, mid: 1, back: Ghost(0), fwd: Ghost(2) }
    }

    /// Whether the register's dirty flag is set: the cheap pre-check made by
    /// the consumer before it claims anything.
    pub(crate) fn is_dirty(&self) -> (r: bool)
        ensures
            r == self@.dirty,
    {
        self.mid & DIRTY == DIRTY
    }

    /// The committing exchange: deposits the producer's back index `b`, dirty
    /// flag set, into the register, and hands back the register's previous
    /// index, dirty flag cleared, as the producer's new back index.
    pub(crate) fn rotate_commit(&mut self, b: u8) -> (r: u8)
        requires
            old(self).wf(),
            b as int == old(self)@.back,
        ensures
            final(self).wf(),
            final(self)@ == commit_step(old(self)@),
            r as int == final(self)@.back,
    {
        proof {
            let bb = b;
            assert((bb | DIRTY) & 0x7 == bb && (bb | DIRTY) & DIRTY == DIRTY && (bb | DIRTY) & 0xf0
                == 0) by (bit_vector)
                requires
                    bb < 3,
            ;
            let m = self.mid;
            assert(m & !DIRTY == m & 0x7 && (m & !DIRTY) & 0xf0 == 0) by (bit_vector)
                requires
                    m & 0xf0 == 0,
            ;
        }
        let prev = self.mid;
        self.mid = b | DIRTY;
        let nb = prev & !DIRTY;
        self.back = Ghost(nb);
        nb
    }

    /// The claiming exchange: deposits the consumer's forward index `f`, dirty
    /// flag clear, into the register, and hands back the register's previous
    /// index, dirty flag cleared, as the consumer's new forward index.
    pub(crate) fn rotate_claim(&mut self, f: u8) -> (r: u8)
        requires
            old(self).wf(),
            old(self)@.dirty,
            f as int == old(self)@.fwd,
        ensures
            final(self).wf(),
            final(self)@ == claim_step(old(self)@),
            r as int == final(self)@.fwd,
    {
        proof {
            let ff = f;
            assert(ff & 0x7 == ff && ff & DIRTY != DIRTY && ff & 0xf0 == 0) by (bit_vector)
                requires
                    ff < 3,
            ;
            let m = self.mid;
            assert(m & !DIRTY == m & 0x7 && (m & !DIRTY) & 0xf0 == 0) by (bit_vector)
                requires
                    m & 0xf0 == 0,
            ;
        }
        let prev = self.mid;
        self.mid = f;
        let nf = prev & !DIRTY;
        self.fwd = Ghost(nf);
        nf
    }

    /// Overwrites the slot with index `i`.
    pub(crate) fn slot_set(&mut self, i: u8, value: T)
        requires
            i < 3,
        ensures
            final(self)@ == (BufferModel { slots: old(self)@.slots.update(i as int, value), ..old(self)@ }),
            final(self).reg_ok() == old(self).reg_ok(),
    {
        match i {
            0 => self.slot0 = value,
            1 => self.slot1 = value,
            _ => self.slot2 = value,
        }
        proof {
            assert(final(self)@.slots =~= old(self)@.slots.update(i as int, value));
        }
    }
}

} // verus!
