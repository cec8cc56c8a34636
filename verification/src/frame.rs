//! The fixed-capacity bus frame buffer with head and tail slack.
//!
//! A `Frame` owns a byte store of fixed capacity together with an `offset`
//! into it; the visible payload is `data[offset .. offset + meta.len]`.
//! The default offset leaves room so that the protocol layers can prepend
//! headers and append a checksum in place, without copying.
use vstd::prelude::*;

use crate::error::DeviceAdaptorError;

verus! {

/// Longest payload a frame may carry.
pub const FRAME_MAX_LENGTH: usize = 150;

/// Slack around the payload for headers and checksums.
pub const FRAME_PADDING: usize = 18;

/// Total capacity of a default frame buffer.
pub const FRAME_DATA_LENGTH: usize = FRAME_MAX_LENGTH + FRAME_PADDING;

/// Default start offset: up to 16 header bytes can be prepended in place.
pub const FRAME_DEFAULT_START_OFFSET: u16 = 16;

/// Flags that a bus adaptor attaches to a frame.
#[derive(Debug, Clone, Copy, PartialEq, Eq, Structural)]
pub struct FrameFlag {
    /// The frame is a CAN time broadcast.
    pub can_time_broadcast: bool,
    /// The frame is a UART quick-telemetry frame (carries no envelope header).
    pub uart_telemetry: bool,
}

impl FrameFlag {
    /// No flag set.
    pub open spec fn spec_empty() -> FrameFlag {
        FrameFlag { can_time_broadcast: false, uart_telemetry: false }
    }

    /// No flag set.
    pub fn empty() -> (r: FrameFlag)
        ensures
            r == FrameFlag::spec_empty(),
    {
        FrameFlag { can_time_broadcast: false, uart_telemetry: false }
    }

    /// True when no flag is set.
    pub fn is_empty(&self) -> (r: bool)
        ensures
            r == (*self == FrameFlag::spec_empty()),
    {
        !self.can_time_broadcast && !self.uart_telemetry
    }
}

/// Metadata that accompanies a frame's payload.
#[derive(Debug, Clone, Copy)]
pub struct FrameMeta {
    /// Source node ID.
    pub src_id: u8,
    /// Destination node ID.
    pub dest_id: u8,
    /// Per-frame sequence or application sub-ID.
    pub id: u8,
    /// Mirrors the visible payload length.
    pub len: u16,
    /// Bus-level data type (UART).
    pub data_type: u8,
    /// Bus-level command type (UART).
    pub command_type: u8,
    /// Adaptor flags.
    pub flag: FrameFlag,
}

impl FrameMeta {
    /// The all-zero metadata with no flag set.
    pub open spec fn spec_default() -> FrameMeta {
        FrameMeta {
            src_id: 0,
            dest_id: 0,
            id: 0,
            len: 0,
            data_type: 0,
            command_type: 0,
            flag: FrameFlag::spec_empty(),
        }
    }

    /// Swap source and destination, as a response to a request does.
    pub fn exchange_src_dest(&mut self)
        ensures
            *final(self) == (FrameMeta {
                src_id: old(self).dest_id,
                dest_id: old(self).src_id,
                ..*old(self)
            }),
    {
        let src = self.src_id;
        self.src_id = self.dest_id;
        self.dest_id = src;
    }
}

impl Default for FrameMeta {
    fn default() -> (r: FrameMeta)
        ensures
            r == FrameMeta::spec_default(),
    {
        FrameMeta {
            src_id: 0,
            dest_id: 0,
            id: 0,
            len: 0,
            data_type: 0,
            command_type: 0,
            flag: FrameFlag { can_time_broadcast: false, uart_telemetry: false },
        }
    }
}

/// A bus frame: metadata plus a fixed-capacity byte store with head/tail slack.
#[derive(Debug)]
pub struct Frame {
    /// The frame's metadata; `meta.len` mirrors the visible payload length.
    pub meta: FrameMeta,
    /// Start of the visible payload within `data`.
    pub offset: u16,
    /// The backing byte store.
    pub data: Vec<u8>,
}

impl Frame {
    /// Well-formedness: the visible window lies inside the store, and the
    /// store is indexable by 16-bit offsets.
    pub open spec fn wf(&self) -> bool {
        &&& self.offset as int + self.meta.len as int <= self.data@.len()
        &&& self.data@.len() <= 0xffff
    }

    /// The visible payload: the bytes `data[offset .. offset + meta.len]`.
    pub open spec fn payload(&self) -> Seq<u8> {
        self.data@.subrange(self.offset as int, self.offset as int + self.meta.len as int)
    }

    /// The value of this frame after `expand_head(k)` succeeds.
    pub open spec fn with_head_expanded(self, k: u16) -> Frame {
        Frame {
            meta: FrameMeta { len: (self.meta.len + k) as u16, ..self.meta },
            offset: (self.offset - k) as u16,
            data: self.data,
        }
    }

    /// The value of this frame after `shrink_head(k)` succeeds.
    pub open spec fn with_head_shrunk(self, k: u16) -> Frame {
        Frame {
            meta: FrameMeta {
                len: if self.meta.len >= k {
                    (self.meta.len - k) as u16
                } else {
                    0u16
                },
                ..self.meta
            },
            offset: (self.offset + k) as u16,
            data: self.data,
        }
    }

    /// Build a frame around a copy of `data`, placed at the default offset.
    /// Fails with `FrameError` when `data` is longer than the payload limit.
    pub fn new(meta: FrameMeta, data: &[u8]) -> (r: Result<Frame, DeviceAdaptorError>)
        ensures
            r is Err <==> data@.len() > FRAME_MAX_LENGTH,
            r is Err ==> r->Err_0 is FrameError,
            r is Ok ==> {
                let f = r->Ok_0;
                &&& f.wf()
                &&& f.offset == FRAME_DEFAULT_START_OFFSET
                &&& f.data@.len() == FRAME_DATA_LENGTH
                &&& f.payload() == data@
                &&& f.meta == (FrameMeta { len: data@.len() as u16, ..meta })
            },
    {
        if data.len() > FRAME_MAX_LENGTH {
            return Err(DeviceAdaptorError::FrameError("buffer too large".to_owned()));
        }
        let mut store: Vec<u8> = vec![0u8; FRAME_DATA_LENGTH];
        let mut i: usize = 0;
        while i < data.len()
            invariant
                i <= data@.len(),
                data@.len() <= FRAME_MAX_LENGTH,
                store@.len() == FRAME_DATA_LENGTH,
                forall|j: int|
                    0 <= j < i ==> store@[FRAME_DEFAULT_START_OFFSET as int + j] == data@[j],
            decreases data@.len() - i,
        {
            store.set(FRAME_DEFAULT_START_OFFSET as usize + i, data[i]);
            i += 1;
        }
        let frame = Frame {
            meta: FrameMeta { len: data.len() as u16, ..meta },
            offset: FRAME_DEFAULT_START_OFFSET,
            data: store,
        };
        proof {
            assert(frame.payload() =~= data@);
        }
        Ok(frame)
    }

    /// Build a frame whose store is exactly large enough for `data` plus the
    /// slack, placed at the default offset.
    pub fn extended(meta: FrameMeta, data: &[u8]) -> (r: Result<Frame, DeviceAdaptorError>)
        requires
            data@.len() + FRAME_PADDING <= 0xffff,
        ensures
            r is Ok,
            r is Ok ==> {
                let f = r->Ok_0;
                &&& f.wf()
                &&& f.offset == FRAME_DEFAULT_START_OFFSET
                &&& f.data@.len() == data@.len() + FRAME_PADDING
                &&& f.payload() == data@
                &&& f.meta == (FrameMeta { len: data@.len() as u16, ..meta })
            },
    {
        let mut store: Vec<u8> = vec![0u8; data.len() + FRAME_PADDING];
        let mut i: usize = 0;
        while i < data.len()
            invariant
                i <= data@.len(),
                data@.len() + FRAME_PADDING <= 0xffff,
                store@.len() == data@.len() + FRAME_PADDING,
                forall|j: int|
                    0 <= j < i ==> store@[FRAME_DEFAULT_START_OFFSET as int + j] == data@[j],
            decreases data@.len() - i,
        {
            store.set(FRAME_DEFAULT_START_OFFSET as usize + i, data[i]);
            i += 1;
        }
        let frame = Frame {
            meta: FrameMeta { len: data.len() as u16, ..meta },
            offset: FRAME_DEFAULT_START_OFFSET,
            data: store,
        };
        proof {
            assert(frame.payload() =~= data@);
        }
        Ok(frame)
    }

    /// Length of the visible payload.
    pub fn len(&self) -> (r: usize)
        ensures
            r == self.meta.len,
    {
        self.meta.len as usize
    }

    /// Set the visible payload length. Fails with `FrameError` when the new
    /// window would not fit the capacity or the 168-byte bound.
    pub fn set_len(&mut self, len: u16) -> (r: Result<(), DeviceAdaptorError>)
        requires
            old(self).wf(),
        ensures
            final(self).wf(),
            r is Err <==> (len > FRAME_DATA_LENGTH || old(self).offset + len > old(
                self,
            ).data@.len()),
            r is Err ==> *final(self) == *old(self) && r->Err_0 is FrameError,
            r is Ok ==> *final(self) == (Frame {
                meta: FrameMeta { len, ..old(self).meta },
                ..*old(self)
            }),
    {
        if len > FRAME_DATA_LENGTH as u16 {
            return Err(DeviceAdaptorError::FrameError("set_len".to_owned()));
        }
        if self.offset as usize + len as usize > self.data.len() {
            return Err(DeviceAdaptorError::FrameError("set_len".to_owned()));
        }
        self.meta.len = len;
        Ok(())
    }

    /// Move the payload start back by `len` bytes, exposing `len` writable
    /// bytes before the old payload. Fails when the slack is too small.
    pub fn expand_head(&mut self, len: usize) -> (r: Result<(), DeviceAdaptorError>)
        requires
            old(self).wf(),
        ensures
            final(self).wf(),
            r is Err <==> len > old(self).offset,
            r is Err ==> *final(self) == *old(self) && r->Err_0 is FrameError,
            r is Ok ==> *final(self) == old(self).with_head_expanded(len as u16),
            r is Ok ==> final(self).payload().skip(len as int) == old(self).payload(),
    {
        if len > self.offset as usize {
            return Err(DeviceAdaptorError::FrameError("expand_head".to_owned()));
        }
        self.offset = self.offset - len as u16;
        self.meta.len = self.meta.len + len as u16;
        proof {
            assert(self.payload().skip(len as int) =~= old(self).payload());
        }
        Ok(())
    }

    /// Move the payload start forward by `len` bytes; the length saturates at
    /// zero. Fails when the new offset would leave the 168-byte window or the
    /// capacity.
    pub fn shrink_head(&mut self, len: usize) -> (r: Result<(), DeviceAdaptorError>)
        requires
            old(self).wf(),
        ensures
            final(self).wf(),
            r is Err <==> (old(self).offset + len >= FRAME_DATA_LENGTH || old(self).offset + len
                > old(self).data@.len()),
            r is Err ==> *final(self) == *old(self) && r->Err_0 is FrameError,
            r is Ok ==> *final(self) == old(self).with_head_shrunk(len as u16),
            r is Ok && len <= old(self).meta.len ==> final(self).payload() == old(
                self,
            ).payload().skip(len as int),
    {
        if len >= FRAME_DATA_LENGTH {
            return Err(DeviceAdaptorError::FrameError("shrink_head".to_owned()));
        }
        if self.offset as usize + len >= FRAME_DATA_LENGTH {
            return Err(DeviceAdaptorError::FrameError("shrink_head".to_owned()));
        }
        if self.offset as usize + len > self.data.len() {
            return Err(DeviceAdaptorError::FrameError("shrink_head".to_owned()));
        }
        self.offset = self.offset + len as u16;
        if self.meta.len < len as u16 {
            self.meta.len = 0;
        } else {
            self.meta.len = self.meta.len - len as u16;
        }
        proof {
            if len <= old(self).meta.len {
                assert(self.payload() =~= old(self).payload().skip(len as int));
            }
        }
        Ok(())
    }

    /// Grow the payload by `len` bytes at the tail. Fails when the new window
    /// would leave the 168-byte bound or the capacity.
    pub fn expand_tail(&mut self, len: usize) -> (r: Result<(), DeviceAdaptorError>)
        requires
            old(self).wf(),
        ensures
            final(self).wf(),
            r is Err <==> (old(self).offset + old(self).meta.len + len > FRAME_DATA_LENGTH || old(
                self,
            ).offset + old(self).meta.len + len > old(self).data@.len()),
            r is Err ==> *final(self) == *old(self) && r->Err_0 is FrameError,
            r is Ok ==> *final(self) == (Frame {
                meta: FrameMeta { len: (old(self).meta.len + len) as u16, ..old(self).meta },
                ..*old(self)
            }),
            r is Ok ==> final(self).payload().take(old(self).meta.len as int) == old(
                self,
            ).payload(),
    {
        if len > FRAME_DATA_LENGTH {
            return Err(DeviceAdaptorError::FrameError("expand_tail".to_owned()));
        }
        if self.offset as usize + self.meta.len as usize + len > FRAME_DATA_LENGTH {
            return Err(DeviceAdaptorError::FrameError("expand_tail".to_owned()));
        }
        if self.offset as usize + self.meta.len as usize + len > self.data.len() {
            return Err(DeviceAdaptorError::FrameError("expand_tail".to_owned()));
        }
        self.meta.len = self.meta.len + len as u16;
        proof {
            assert(self.payload().take(old(self).meta.len as int) =~= old(self).payload());
        }
        Ok(())
    }

    /// The visible payload bytes.
    pub fn data(&self) -> (r: &[u8])
        requires
            self.wf(),
        ensures
            r@ == self.payload(),
    {
        vstd::slice::slice_subrange(
            self.data.as_slice(),
            self.offset as usize,
            self.offset as usize + self.meta.len as usize,
        )
    }

    /// Overwrite the payload byte at `i`.
    pub fn write_byte(&mut self, i: usize, b: u8)
        requires
            old(self).wf(),
            i < old(self).meta.len,
        ensures
            final(self).wf(),
            final(self).meta == old(self).meta,
            final(self).offset == old(self).offset,
            final(self).payload() == old(self).payload().update(i as int, b),
            final(self).data@ == old(self).data@.update(old(self).offset + i, b),
    {
        self.data.set(self.offset as usize + i, b);
        proof {
            assert(self.payload() =~= old(self).payload().update(i as int, b));
        }
    }

    /// Overwrite the payload bytes `[start, start + src.len())` with `src`.
    pub fn write_range(&mut self, start: usize, src: &[u8])
        requires
            old(self).wf(),
            start + src@.len() <= old(self).meta.len,
        ensures
            final(self).wf(),
            final(self).meta == old(self).meta,
            final(self).offset == old(self).offset,
            final(self).data@.len() == old(self).data@.len(),
            final(self).payload().len() == old(self).payload().len(),
            final(self).payload() == old(self).payload().take(start as int) + src@ + old(
                self,
            ).payload().skip(start + src@.len()),
    {
        let mut i: usize = 0;
        while i < src.len()
            invariant
                i <= src@.len(),
                old(self).wf(),
                start + src@.len() <= old(self).meta.len,
                self.meta == old(self).meta,
                self.offset == old(self).offset,
                self.data@.len() == old(self).data@.len(),
                forall|j: int|
                    0 <= j < self.data@.len() && !(self.offset + start <= j < self.offset + start
                        + i) ==> self.data@[j] == old(self).data@[j],
                forall|j: int| 0 <= j < i ==> self.data@[self.offset + start + j] == src@[j],
            decreases src@.len() - i,
        {
            self.data.set(self.offset as usize + start + i, src[i]);
            i += 1;
        }
        proof {
            assert(self.payload() =~= old(self).payload().take(start as int) + src@ + old(
                self,
            ).payload().skip(start + src@.len()));
        }
    }
}

impl Default for Frame {
    /// An empty frame at the default offset with default metadata.
    fn default() -> (r: Frame)
        ensures
            r.wf(),
            r.offset == FRAME_DEFAULT_START_OFFSET,
            r.data@.len() == FRAME_DATA_LENGTH,
            r.data@ == Seq::<u8>::new(FRAME_DATA_LENGTH as nat, |i: int| 0u8),
            r.meta == FrameMeta::spec_default(),
            r.payload() == Seq::<u8>::empty(),
    {
        let frame = Frame {
            meta: FrameMeta {
                src_id: 0,
                dest_id: 0,
                id: 0,
                len: 0,
                data_type: 0,
                command_type: 0,
                flag: FrameFlag { can_time_broadcast: false, uart_telemetry: false },
            },
            offset: FRAME_DEFAULT_START_OFFSET,
            data: vec![0u8; FRAME_DATA_LENGTH],
        };
        proof {
            assert(frame.data@ =~= Seq::<u8>::new(FRAME_DATA_LENGTH as nat, |i: int| 0u8));
            assert(frame.payload() =~= Seq::<u8>::empty());
        }
        frame
    }
}

/// Expanding the head of a well-formed frame by `k` and shrinking it back by
/// `k` restores the frame exactly; the expansion exposes `k` writable bytes
/// in front of an unchanged payload.
pub proof fn lemma_head_expand_shrink_restores(f: Frame, k: u16)
    requires
        f.wf(),
        k <= f.offset,
    ensures
        f.with_head_expanded(k).with_head_shrunk(k) == f,
        f.with_head_expanded(k).payload().len() == k + f.payload().len(),
        f.with_head_expanded(k).payload().skip(k as int) == f.payload(),
{
    let g = f.with_head_expanded(k);
    assert(g.with_head_shrunk(k).meta == f.meta);
    assert(g.with_head_shrunk(k) == f);
    assert(g.payload().skip(k as int) =~= f.payload());
}

} // verus!
