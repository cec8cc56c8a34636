//! Reassembly slots for multi-frame CAN transmissions.
use vstd::prelude::*;

use crate::error::DeviceAdaptorError;

verus! {

/// Capacity of one reassembly slot.
pub const SLOT_SIZE: usize = 157;

/// One reassembly buffer. It is armed with a total length and then filled by
/// appending fragments; it is complete when armed and full.
pub struct Slot {
    data: Vec<u8>,
    current_len: u16,
    total_len: u16,
    is_valid: bool,
}

impl Slot {
    /// Well-formedness: the store has the fixed slot capacity and the fill
    /// level never passes the armed total.
    pub closed spec fn wf(&self) -> bool {
        &&& self.data@.len() == SLOT_SIZE
        &&& self.current_len <= self.total_len <= SLOT_SIZE
    }

    /// The armed total length.
    pub closed spec fn spec_total_len(&self) -> u16 {
        self.total_len
    }

    /// Whether the slot is armed.
    pub closed spec fn spec_is_valid(&self) -> bool {
        self.is_valid
    }

    /// The fragment bytes received so far.
    pub closed spec fn received(&self) -> Seq<u8> {
        self.data@.take(self.current_len as int)
    }

    /// A fresh, unarmed, empty slot.
    pub fn new() -> (r: Slot)
        ensures
            r.wf(),
            r.received() == Seq::<u8>::empty(),
            r.spec_total_len() == 0,
            !r.spec_is_valid(),
    {
        let slot = Slot { data: vec![0u8; SLOT_SIZE], current_len: 0, total_len: 0, is_valid: false };
        proof {
            assert(slot.received() =~= Seq::<u8>::empty());
        }
        slot
    }

    /// Return the slot to unarmed and empty; the store is kept.
    pub fn reset(&mut self)
        requires
            old(self).wf(),
        ensures
            final(self).wf(),
            final(self).received() == Seq::<u8>::empty(),
            final(self).spec_total_len() == 0,
            !final(self).spec_is_valid(),
    {
        self.current_len = 0;
        self.total_len = 0;
        self.is_valid = false;
        proof {
            assert(self.received() =~= Seq::<u8>::empty());
        }
    }

    /// The armed total length.
    pub fn total_len(&self) -> (r: u16)
        ensures
            r == self.spec_total_len(),
    {
        self.total_len
    }

    /// The first `total_len` bytes of the store: the reassembled transmission
    /// once the slot is complete.
    pub fn data(&self) -> (r: &[u8])
        requires
            self.wf(),
        ensures
            r@.len() == self.spec_total_len(),
            r@.take(self.received().len() as int) == self.received(),
            self.received().len() == self.spec_total_len() ==> r@ == self.received(),
    {
        let r = vstd::slice::slice_subrange(self.data.as_slice(), 0, self.total_len as usize);
        proof {
            assert(r@.take(self.current_len as int) =~= self.received());
            if self.current_len == self.total_len {
                assert(r@ =~= self.received());
            }
        }
        r
    }

    /// Arm the slot for a transmission of `len` bytes. Fails with `FrameError`
    /// when `len` passes the slot capacity.
    pub fn set_total_len(&mut self, len: u16) -> (r: Result<(), DeviceAdaptorError>)
        requires
            old(self).wf(),
            old(self).received().len() == 0,
        ensures
            final(self).wf(),
            r is Err <==> len > SLOT_SIZE,
            r is Err ==> *final(self) == *old(self) && r->Err_0 is FrameError,
            r is Ok ==> {
                &&& final(self).spec_total_len() == len
                &&& final(self).spec_is_valid()
                &&& final(self).received() == old(self).received()
            },
    {
        if len > SLOT_SIZE as u16 {
            return Err(DeviceAdaptorError::FrameError("invalid len".to_owned()));
        }
        self.total_len = len;
        self.is_valid = true;
        Ok(())
    }

    /// Append a fragment. Fails with `FrameError` when the fragment would pass
    /// the armed total.
    pub fn copy_from_slice(&mut self, src: &[u8]) -> (r: Result<(), DeviceAdaptorError>)
        requires
            old(self).wf(),
        ensures
            final(self).wf(),
            r is Err <==> old(self).received().len() + src@.len() > old(self).spec_total_len(),
            r is Err ==> *final(self) == *old(self) && r->Err_0 is FrameError,
            r is Ok ==> {
                &&& final(self).received() == old(self).received() + src@
                &&& final(self).spec_total_len() == old(self).spec_total_len()
                &&& final(self).spec_is_valid() == old(self).spec_is_valid()
            },
    {
        let current_len = self.current_len as usize;
        if src.len() > self.total_len as usize || current_len > self.total_len as usize
            - src.len() {
            return Err(DeviceAdaptorError::FrameError("overflow".to_owned()));
        }
        let mut i: usize = 0;
        while i < src.len()
            invariant
                i <= src@.len(),
                current_len + src@.len() <= self.total_len,
                current_len == self.current_len,
                self.wf(),
                self.total_len == old(self).total_len,
                self.is_valid == old(self).is_valid,
                self.current_len == old(self).current_len,
                self.data@.len() == old(self).data@.len(),
                forall|j: int|
                    0 <= j < self.data@.len() && !(current_len <= j < current_len + i)
                        ==> self.data@[j] == old(self).data@[j],
                forall|j: int| 0 <= j < i ==> self.data@[current_len + j] == src@[j],
            decreases src@.len() - i,
        {
            self.data.set(current_len + i, src[i]);
            i += 1;
        }
        self.current_len = self.current_len + src.len() as u16;
        proof {
            assert(self.received() =~= old(self).received() + src@);
        }
        Ok(())
    }

    /// Complete: armed and full.
    pub fn is_complete(&self) -> (r: bool)
        requires
            self.wf(),
        ensures
            r == (self.spec_is_valid() && self.received().len() == self.spec_total_len()),
    {
        self.is_valid && self.current_len == self.total_len
    }
}

} // verus!
