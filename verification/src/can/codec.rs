//! The vendor CAN frame codec: decoding raw CAN frames into bus frames with
//! multi-frame reassembly, and encoding bus frames into raw CAN frames with
//! fragmentation and checksumming.
use vstd::prelude::*;

use crate::can::id::{
    spec_dest_of, spec_frame_type_of, spec_is_csp_of, spec_pid_of, spec_src_of, TyCanFrameType,
    TyCanId,
};
use crate::can::slot::Slot;
use crate::error::DeviceAdaptorError;
use crate::frame::{Frame, FrameFlag, FrameMeta};

verus! {

/// Byte-wise wrapping sum, the integrity check of the CAN multi-frame format.
pub open spec fn sum_bytes(s: Seq<u8>) -> u8
    decreases s.len(),
{
    if s.len() == 0 {
        0u8
    } else {
        ((sum_bytes(s.drop_last()) + s.last()) % 256) as u8
    }
}

/// Wrapping sum of every byte of `buf`.
pub fn get_checksum(buf: &[u8]) -> (r: u8)
    ensures
        r == sum_bytes(buf@),
{
    let mut sum: u8 = 0;
    let mut i: usize = 0;
    while i < buf.len()
        invariant
            i <= buf@.len(),
            sum == sum_bytes(buf@.subrange(0, i as int)),
        decreases buf@.len() - i,
    {
        proof {
            assert(buf@.subrange(0, i + 1).drop_last() =~= buf@.subrange(0, i as int));
        }
        sum = ((sum as u16 + buf[i] as u16) % 256) as u8;
        i += 1;
    }
    proof {
        assert(buf@.subrange(0, buf@.len() as int) =~= buf@);
    }
    sum
}

/// Number of reassembly slots; slots are indexed by the 8-bit packet ID.
pub const RECV_BUF_SLOT_NUM: usize = 128;

/// The protocol MTU of one logical CAN transmission.
pub const TY_CAN_PROTOCOL_MTU: usize = 150;

/// Largest payload of one logical transmission: the MTU minus the multi-frame
/// header and the checksum.
pub const TY_CAN_PROTOCOL_PAYLOAD_MAX_SIZE: usize = 145;

/// Largest payload of a single frame: one CAN frame minus the header.
pub const TY_CAN_PROTOCOL_SINGLE_FRAME_MAX: usize = 6;

/// Size of one raw CAN frame's data field.
pub const TY_CAN_PROTOCOL_CAN_FRAME_SIZE: usize = 8;

/// `type` of a response from the peer.
pub const TY_CAN_PROTOCOL_TYPE_RESPONSE: u8 = 0x35;

/// `type` of an OBC command request.
pub const TY_CAN_PROTOCOL_TYPE_OBC_COMMAND_REQUEST: u8 = 0x05;

/// `type` of an OBC broadcast request.
pub const TY_CAN_PROTOCOL_TYPE_OBC_BROADCAST_REQUEST: u8 = 0x0f;

/// `utilities` of a single-frame request.
pub const TY_CAN_PROTOCOL_UTILITES_SINGLE_REQUEST: u8 = 0x01;

/// `utilities` of a single-frame response.
pub const TY_CAN_PROTOCOL_UTILITES_SINGLE_RESPONSE: u8 = 0x02;

/// `utilities` of a multi-frame request.
pub const TY_CAN_PROTOCOL_UTILITES_MULTI_REQUEST: u8 = 0x03;

/// `utilities` of a multi-frame response.
pub const TY_CAN_PROTOCOL_UTILITES_MULTI_RESPONSE: u8 = 0x04;

/// The broadcast pseudo-node's ID.
pub const TY_CAN_BROADCAST_ID: u8 = 0xfd;

/// The On-Board Controller's ID.
pub const TY_CAN_OBC_ID: u8 = 0;

/// A single-frame request header is `utilities = 0x01` with an OBC request
/// `type`.
pub open spec fn spec_single_hdr_valid(type_: u8, utilites: u8) -> bool {
    utilites == TY_CAN_PROTOCOL_UTILITES_SINGLE_REQUEST && (type_
        == TY_CAN_PROTOCOL_TYPE_OBC_COMMAND_REQUEST || type_
        == TY_CAN_PROTOCOL_TYPE_OBC_BROADCAST_REQUEST)
}

/// A multi-frame request header is `utilities = 0x03` with an OBC request
/// `type`.
pub open spec fn spec_multi_hdr_valid(type_: u8, utilites: u8) -> bool {
    utilites == TY_CAN_PROTOCOL_UTILITES_MULTI_REQUEST && (type_
        == TY_CAN_PROTOCOL_TYPE_OBC_COMMAND_REQUEST || type_
        == TY_CAN_PROTOCOL_TYPE_OBC_BROADCAST_REQUEST)
}

/// The 2-byte header of a single frame: `type`, then `utilities`.
#[derive(Debug, Clone, Copy, PartialEq, Eq, Structural)]
pub struct TySingleFrameHeader {
    /// The `type` byte.
    pub type_: u8,
    /// The `utilities` byte.
    pub utilites: u8,
}

impl TySingleFrameHeader {
    /// Parse the header from the first two bytes of `buf`; `None` when `buf`
    /// is too short.
    pub fn read(buf: &[u8]) -> (r: Option<TySingleFrameHeader>)
        ensures
            r is Some <==> buf@.len() >= 2,
            r is Some ==> r->0 == (TySingleFrameHeader { type_: buf@[0], utilites: buf@[1] }),
    {
        if buf.len() < 2 {
            return None;
        }
        Some(TySingleFrameHeader { type_: buf[0], utilites: buf[1] })
    }

    /// The `type` byte.
    pub fn type_(&self) -> (r: u8)
        ensures
            r == self.type_,
    {
        self.type_
    }

    /// The `utilities` byte.
    pub fn utilites(&self) -> (r: u8)
        ensures
            r == self.utilites,
    {
        self.utilites
    }

    /// Set the `utilities` byte.
    pub fn set_utilites(&mut self, utilites: u8)
        ensures
            *final(self) == (TySingleFrameHeader { utilites, ..*old(self) }),
    {
        self.utilites = utilites;
    }

    /// Set the `type` byte.
    pub fn set_type(&mut self, type_: u8)
        ensures
            *final(self) == (TySingleFrameHeader { type_, ..*old(self) }),
    {
        self.type_ = type_;
    }

    /// Whether the header is a valid single-frame request.
    pub fn check_valid(&self) -> (r: bool)
        ensures
            r == spec_single_hdr_valid(self.type_, self.utilites),
    {
        self.utilites == TY_CAN_PROTOCOL_UTILITES_SINGLE_REQUEST && (self.type_
            == TY_CAN_PROTOCOL_TYPE_OBC_COMMAND_REQUEST || self.type_
            == TY_CAN_PROTOCOL_TYPE_OBC_BROADCAST_REQUEST)
    }
}

/// The 4-byte header of a multi-frame transmission: a big-endian total length
/// followed by a single-frame header.
#[derive(Debug, Clone, Copy, PartialEq, Eq, Structural)]
pub struct TyMultiFrameHeader {
    /// Total length of `type`, `utilities` and payload, big-endian on the wire.
    pub total_len: u16,
    /// The embedded single-frame header.
    pub hdr: TySingleFrameHeader,
}

/// The big-endian 16-bit value of two bytes.
pub open spec fn spec_be16(hi: u8, lo: u8) -> u16 {
    (hi as u16 * 256 + lo as u16) as u16
}

impl TyMultiFrameHeader {
    /// Parse the header from the first four bytes of `buf`; `None` when `buf`
    /// is too short.
    pub fn read(buf: &[u8]) -> (r: Option<TyMultiFrameHeader>)
        ensures
            r is Some <==> buf@.len() >= 4,
            r is Some ==> r->0 == (TyMultiFrameHeader {
                total_len: spec_be16(buf@[0], buf@[1]),
                hdr: TySingleFrameHeader { type_: buf@[2], utilites: buf@[3] },
            }),
    {
        if buf.len() < 4 {
            return None;
        }
        let total_len: u16 = buf[0] as u16 * 256 + buf[1] as u16;
        Some(
            TyMultiFrameHeader {
                total_len,
                hdr: TySingleFrameHeader { type_: buf[2], utilites: buf[3] },
            },
        )
    }

    /// The total length: `type`, `utilities` and payload together.
    pub fn total_len(&self) -> (r: u16)
        ensures
            r == self.total_len,
    {
        self.total_len
    }

    /// The `type` byte.
    pub fn type_(&self) -> (r: u8)
        ensures
            r == self.hdr.type_,
    {
        self.hdr.type_
    }

    /// The `utilities` byte.
    pub fn utilites(&self) -> (r: u8)
        ensures
            r == self.hdr.utilites,
    {
        self.hdr.utilites
    }

    /// Set the total length.
    pub fn set_total_len(&mut self, len: u16)
        ensures
            *final(self) == (TyMultiFrameHeader { total_len: len, ..*old(self) }),
    {
        self.total_len = len;
    }

    /// Set the `utilities` byte.
    pub fn set_utilites(&mut self, utilites: u8)
        ensures
            final(self).total_len == old(self).total_len,
            final(self).hdr == (TySingleFrameHeader { utilites, ..old(self).hdr }),
    {
        self.hdr.utilites = utilites;
    }

    /// Set the `type` byte.
    pub fn set_type(&mut self, type_: u8)
        ensures
            final(self).total_len == old(self).total_len,
            final(self).hdr == (TySingleFrameHeader { type_, ..old(self).hdr }),
    {
        self.hdr.type_ = type_;
    }

    /// Whether the header is a valid multi-frame request.
    pub fn check_valid(&self) -> (r: bool)
        ensures
            r == spec_multi_hdr_valid(self.hdr.type_, self.hdr.utilites),
    {
        self.hdr.utilites == TY_CAN_PROTOCOL_UTILITES_MULTI_REQUEST && (self.hdr.type_
            == TY_CAN_PROTOCOL_TYPE_OBC_COMMAND_REQUEST || self.hdr.type_
            == TY_CAN_PROTOCOL_TYPE_OBC_BROADCAST_REQUEST)
    }
}

/// The abstract state of one reassembly slot.
pub struct SlotModel {
    /// Fragment bytes received so far.
    pub received: Seq<u8>,
    /// The armed total length.
    pub total: u16,
    /// Whether the slot is armed.
    pub valid: bool,
}

/// The empty, unarmed slot state.
pub open spec fn slot_model_empty() -> SlotModel {
    SlotModel { received: Seq::<u8>::empty(), total: 0, valid: false }
}

/// A frame as the decoder hands it up: metadata fields and payload bytes.
pub struct FrameOut {
    /// Source node ID from the CAN identifier.
    pub src_id: u8,
    /// Destination node ID from the CAN identifier.
    pub dest_id: u8,
    /// The packet ID.
    pub id: u8,
    /// Adaptor flags.
    pub flag: FrameFlag,
    /// The payload bytes.
    pub payload: Seq<u8>,
}

/// What one decoding step produces.
pub enum CanStepOut {
    /// Nothing to hand up; the adaptor keeps polling.
    Nothing,
    /// A complete frame.
    Deliver(FrameOut),
    /// A protocol violation; the frame is dropped with a `FrameError`.
    Reject,
}

/// The result of one decoding step: the new slot states and the output.
pub struct CanStep {
    /// The slot states after the step.
    pub slots: Seq<SlotModel>,
    /// The output of the step.
    pub out: CanStepOut,
}

/// One decoding step on a single frame.
pub open spec fn can_step_single(
    slots: Seq<SlotModel>,
    src: u8,
    dest: u8,
    pid: u8,
    data: Seq<u8>,
) -> CanStep {
    if data.len() < 2 {
        CanStep { slots, out: CanStepOut::Nothing }
    } else if spec_single_hdr_valid(data[0], data[1]) {
        CanStep {
            slots,
            out: CanStepOut::Deliver(
                FrameOut {
                    src_id: src,
                    dest_id: dest,
                    id: pid,
                    flag: FrameFlag::spec_empty(),
                    payload: data.skip(2),
                },
            ),
        }
    } else {
        CanStep { slots, out: CanStepOut::Reject }
    }
}

/// One decoding step on the first frame of a multi-frame transmission.
pub open spec fn can_step_multi_first(
    slots: Seq<SlotModel>,
    idx: int,
    data: Seq<u8>,
) -> CanStep {
    if data.len() < 4 {
        CanStep { slots, out: CanStepOut::Nothing }
    } else if !spec_multi_hdr_valid(data[2], data[3]) {
        CanStep { slots, out: CanStepOut::Reject }
    } else {
        let total_len = spec_be16(data[0], data[1]);
        if total_len < TY_CAN_PROTOCOL_CAN_FRAME_SIZE {
            CanStep { slots, out: CanStepOut::Reject }
        } else if total_len + 3 > crate::can::slot::SLOT_SIZE {
            CanStep { slots, out: CanStepOut::Reject }
        } else {
            CanStep {
                slots: slots.update(
                    idx,
                    SlotModel { received: data, total: (total_len + 3) as u16, valid: true },
                ),
                out: CanStepOut::Nothing,
            }
        }
    }
}

/// One decoding step on a continuation frame: append, and on completion check
/// the checksum over `type`, `utilities` and payload and hand the payload up.
pub open spec fn can_step_multi_middle(
    slots: Seq<SlotModel>,
    src: u8,
    dest: u8,
    pid: u8,
    idx: int,
    data: Seq<u8>,
) -> CanStep {
    let slot = slots[idx];
    if slot.received.len() + data.len() > slot.total {
        CanStep { slots, out: CanStepOut::Reject }
    } else {
        let rec = slot.received + data;
        if slot.valid && rec.len() == slot.total {
            let total = slot.total as int;
            if sum_bytes(rec.subrange(2, total - 1)) == rec[total - 1] && total - 5
                <= crate::frame::FRAME_MAX_LENGTH {
                CanStep {
                    slots: slots.update(idx, slot_model_empty()),
                    out: CanStepOut::Deliver(
                        FrameOut {
                            src_id: src,
                            dest_id: dest,
                            id: pid,
                            flag: FrameFlag::spec_empty(),
                            payload: rec.subrange(4, total - 1),
                        },
                    ),
                }
            } else {
                CanStep { slots: slots.update(idx, slot_model_empty()), out: CanStepOut::Reject }
            }
        } else {
            CanStep {
                slots: slots.update(idx, SlotModel { received: rec, ..slot }),
                out: CanStepOut::Nothing,
            }
        }
    }
}

/// One decoding step on a time broadcast: the eight data bytes must match
/// `50 05 t0 t1 t2 t3 xx 00`; the four timestamp bytes are handed up.
pub open spec fn can_step_time_broadcast(
    slots: Seq<SlotModel>,
    src: u8,
    dest: u8,
    pid: u8,
    data: Seq<u8>,
) -> CanStep {
    if data.len() < 8 {
        CanStep { slots, out: CanStepOut::Nothing }
    } else if data[0] == 0x50 && data[1] == 0x05 && data[7] == 0x00 {
        CanStep {
            slots,
            out: CanStepOut::Deliver(
                FrameOut {
                    src_id: src,
                    dest_id: dest,
                    id: pid,
                    flag: FrameFlag { can_time_broadcast: true, uart_telemetry: false },
                    payload: data.subrange(2, 6),
                },
            ),
        }
    } else {
        CanStep { slots, out: CanStepOut::Reject }
    }
}

/// One decoding step of the receiver on a raw CAN frame.
///
/// Frames echoing the receiver's own ID are dropped; CSP frames are rejected;
/// otherwise the step is chosen by the frame type in the identifier. `Reset`
/// and `Unknown` frames produce nothing here (a `Reset` makes the adaptor
/// restart its interfaces, outside this codec).
pub open spec fn can_step(slots: Seq<SlotModel>, self_id: u8, raw: u32, data: Seq<u8>) -> CanStep {
    let src = spec_src_of(raw);
    let dest = spec_dest_of(raw);
    let pid = spec_pid_of(raw);
    let idx = pid as int % (RECV_BUF_SLOT_NUM as int);
    if src == self_id {
        CanStep { slots, out: CanStepOut::Nothing }
    } else if spec_is_csp_of(raw) {
        CanStep { slots, out: CanStepOut::Reject }
    } else {
        match TyCanFrameType::spec_from_code(spec_frame_type_of(raw)) {
            TyCanFrameType::Single => can_step_single(slots, src, dest, pid, data),
            TyCanFrameType::MultiFirst => can_step_multi_first(slots, idx, data),
            TyCanFrameType::MultiMiddle => can_step_multi_middle(slots, src, dest, pid, idx, data),
            TyCanFrameType::TimeBroadcast => can_step_time_broadcast(slots, src, dest, pid, data),
            TyCanFrameType::Reset => CanStep { slots, out: CanStepOut::Nothing },
            TyCanFrameType::Unknown => CanStep { slots, out: CanStepOut::Nothing },
        }
    }
}

/// Whether the frame `f` carries exactly what the decoder's model hands up.
pub open spec fn frame_matches_out(f: Frame, o: FrameOut) -> bool {
    &&& f.wf()
    &&& f.meta.src_id == o.src_id
    &&& f.meta.dest_id == o.dest_id
    &&& f.meta.id == o.id
    &&& f.meta.flag == o.flag
    &&& f.meta.data_type == 0
    &&& f.meta.command_type == 0
    &&& f.meta.len == o.payload.len()
    &&& f.payload() == o.payload
}

/// Whether the decoder's result matches the model's output.
pub open spec fn result_matches_out(
    r: Result<Option<Frame>, DeviceAdaptorError>,
    out: CanStepOut,
) -> bool {
    match out {
        CanStepOut::Nothing => r is Ok && r->Ok_0 is None,
        CanStepOut::Deliver(o) => r is Ok && r->Ok_0 is Some && frame_matches_out(
            r->Ok_0->0,
            o,
        ),
        CanStepOut::Reject => r is Err && r->Err_0 is FrameError,
    }
}

/// The vendor CAN protocol codec: the adaptor's own ID, the reassembly slot
/// table, and the monotonic packet-ID counter for sends.
pub struct TyCanProtocol {
    src_id: u8,
    slots: Vec<Slot>,
    id_counter: u8,
}

impl TyCanProtocol {
    /// Well-formedness: 128 well-formed slots; an armed slot was armed by a
    /// first frame, so its total covers at least one CAN frame and the
    /// length-and-checksum trailer.
    pub closed spec fn wf(&self) -> bool {
        &&& self.slots@.len() == RECV_BUF_SLOT_NUM
        &&& forall|i: int|
            0 <= i < self.slots@.len() ==> (#[trigger] self.slots@[i]).wf() && (
            self.slots@[i].spec_is_valid() ==> self.slots@[i].spec_total_len() >= 11)
    }

    /// The adaptor's own node ID.
    pub closed spec fn spec_src_id(&self) -> u8 {
        self.src_id
    }

    /// The packet-ID counter.
    pub closed spec fn spec_id_counter(&self) -> u8 {
        self.id_counter
    }

    /// The abstract state of the slot table.
    pub closed spec fn slots_model(&self) -> Seq<SlotModel> {
        Seq::new(
            self.slots@.len() as nat,
            |i: int|
                SlotModel {
                    received: self.slots@[i].received(),
                    total: self.slots@[i].spec_total_len(),
                    valid: self.slots@[i].spec_is_valid(),
                },
        )
    }

    /// A fresh codec for the node `id`, with empty slots and the packet-ID
    /// counter at zero.
    pub fn new(id: u8) -> (r: TyCanProtocol)
        ensures
            r.wf(),
            r.spec_src_id() == id,
            r.spec_id_counter() == 0,
            r.slots_model().len() == RECV_BUF_SLOT_NUM,
            forall|i: int| 0 <= i < RECV_BUF_SLOT_NUM ==> r.slots_model()[i] == slot_model_empty(),
    {
        let mut slots: Vec<Slot> = Vec::new();
        let mut i: usize = 0;
        while i < RECV_BUF_SLOT_NUM
            invariant
                i <= RECV_BUF_SLOT_NUM,
                slots@.len() == i,
                forall|j: int|
                    0 <= j < i ==> {
                        &&& (#[trigger] slots@[j]).wf()
                        &&& slots@[j].received() == Seq::<u8>::empty()
                        &&& slots@[j].spec_total_len() == 0
                        &&& !slots@[j].spec_is_valid()
                    },
            decreases RECV_BUF_SLOT_NUM - i,
        {
            slots.push(Slot::new());
            i += 1;
        }
        TyCanProtocol { src_id: id, slots, id_counter: 0 }
    }

    /// The adaptor's own node ID.
    pub fn src_id(&self) -> (r: u8)
        ensures
            r == self.spec_src_id(),
    {
        self.src_id
    }

    /// The protocol MTU: the largest payload of one logical transmission.
    pub fn mtu(&self, _flag: FrameFlag) -> (r: usize)
        ensures
            r == TY_CAN_PROTOCOL_PAYLOAD_MAX_SIZE,
    {
        TY_CAN_PROTOCOL_PAYLOAD_MAX_SIZE
    }

    /// A bus reset: the packet-ID counter starts over. The interface restart
    /// itself happens outside this codec.
    pub fn on_restart(&mut self)
        requires
            old(self).wf(),
        ensures
            final(self).wf(),
            final(self).spec_id_counter() == 0,
            final(self).spec_src_id() == old(self).spec_src_id(),
            final(self).slots_model() == old(self).slots_model(),
            final(self).slots_model().len() == RECV_BUF_SLOT_NUM,
    {
        self.id_counter = 0;
    }

    /// Decode one raw CAN frame, as `can_step` describes: drop echoes, reject
    /// CSP frames, reassemble multi-frame transmissions through the slot
    /// table, and hand complete frames up.
    pub fn handle_can_frame(&mut self, raw_id: u32, data: &[u8]) -> (r: Result<
        Option<Frame>,
        DeviceAdaptorError,
    >)
        requires
            old(self).wf(),
            data@.len() <= TY_CAN_PROTOCOL_CAN_FRAME_SIZE,
        ensures
            final(self).wf(),
            final(self).spec_src_id() == old(self).spec_src_id(),
            final(self).spec_id_counter() == old(self).spec_id_counter(),
            old(self).slots_model().len() == RECV_BUF_SLOT_NUM,
            final(self).slots_model().len() == RECV_BUF_SLOT_NUM,
            final(self).slots_model() == can_step(
                old(self).slots_model(),
                old(self).spec_src_id(),
                raw_id,
                data@,
            ).slots,
            result_matches_out(
                r,
                can_step(old(self).slots_model(), old(self).spec_src_id(), raw_id, data@).out,
            ),
    {
        let ghost step = can_step(
            old(self).slots_model(),
            old(self).spec_src_id(),
            raw_id,
            data@,
        );
        let id = TyCanId { raw: raw_id };
        let src_id = id.get_src_id();
        if src_id == self.src_id {
            proof {
                assert(self.slots_model() =~= step.slots);
            }
            return Ok(None);
        }
        if id.get_is_csp() {
            proof {
                assert(self.slots_model() =~= step.slots);
            }
            return Err(DeviceAdaptorError::FrameError("can not handle csp packet".to_owned()));
        }
        let pid = id.get_pid();
        let idx = pid as usize % RECV_BUF_SLOT_NUM;
        let dest_id = id.get_dest_id();
        match TyCanFrameType::from_code(id.get_frame_type()) {
            TyCanFrameType::Single => {
                proof {
                    assert(self.slots_model() =~= step.slots);
                }
                if let Some(hdr) = TySingleFrameHeader::read(data) {
                    if hdr.check_valid() {
                        let meta = FrameMeta {
                            src_id,
                            dest_id,
                            id: pid,
                            len: 0,
                            data_type: 0,
                            command_type: 0,
                            flag: FrameFlag::empty(),
                        };
                        let payload = vstd::slice::slice_subrange(data, 2, data.len());
                        let frame = Frame::new(meta, payload)?;
                        Ok(Some(frame))
                    } else {
                        Err(
                            DeviceAdaptorError::FrameError(
                                "invalid single frame header".to_owned(),
                            ),
                        )
                    }
                } else {
                    Ok(None)
                }
            },
            TyCanFrameType::MultiFirst => {
                if let Some(hdr) = TyMultiFrameHeader::read(data) {
                    if !hdr.check_valid() {
                        proof {
                            assert(self.slots_model() =~= step.slots);
                        }
                        return Err(
                            DeviceAdaptorError::FrameError(
                                "invalid multi frame header".to_owned(),
                            ),
                        );
                    }
                    let total_len = hdr.total_len();
                    if total_len < TY_CAN_PROTOCOL_CAN_FRAME_SIZE as u16 {
                        proof {
                            assert(self.slots_model() =~= step.slots);
                        }
                        return Err(
                            DeviceAdaptorError::FrameError(
                                "multi frame total len is too small".to_owned(),
                            ),
                        );
                    }
                    if total_len as usize + 3 > crate::can::slot::SLOT_SIZE {
                        proof {
                            assert(self.slots_model() =~= step.slots);
                        }
                        return Err(DeviceAdaptorError::FrameError("invalid len".to_owned()));
                    }
                    self.slots[idx].reset();
                    let r1 = self.slots[idx].set_total_len(total_len + 3);
                    proof {
                        assert(r1 is Ok);
                    }
                    let r2 = self.slots[idx].copy_from_slice(data);
                    proof {
                        assert(r2 is Ok);
                        assert(self.slots[idx as int].received() =~= data@);
                        assert(self.slots_model() =~= step.slots);
                    }
                    Ok(None)
                } else {
                    proof {
                        assert(self.slots_model() =~= step.slots);
                    }
                    Ok(None)
                }
            },
            TyCanFrameType::MultiMiddle => {
                let copied = self.slots[idx].copy_from_slice(data);
                if copied.is_err() {
                    proof {
                        assert(self.slots_model() =~= step.slots);
                    }
                    return Err(DeviceAdaptorError::FrameError("overflow".to_owned()));
                }
                if self.slots[idx].is_complete() {
                    let total = self.slots[idx].total_len();
                    let result: Result<Option<Frame>, DeviceAdaptorError>;
                    {
                        let sdata = self.slots[idx].data();
                        let covered = vstd::slice::slice_subrange(sdata, 2, total as usize - 1);
                        let checksum = get_checksum(covered);
                        if checksum == sdata[total as usize - 1] && total as usize - 5
                            <= crate::frame::FRAME_MAX_LENGTH {
                            let meta = FrameMeta {
                                src_id,
                                dest_id,
                                id: pid,
                                len: 0,
                                data_type: 0,
                                command_type: 0,
                                flag: FrameFlag::empty(),
                            };
                            let payload = vstd::slice::slice_subrange(
                                sdata,
                                4,
                                total as usize - 1,
                            );
                            result = match Frame::new(meta, payload) {
                                Ok(frame) => Ok(Some(frame)),
                                Err(e) => Err(e),
                            };
                        } else {
                            result = Err(
                                DeviceAdaptorError::FrameError("checksum failed".to_owned()),
                            );
                        }
                    }
                    self.slots[idx].reset();
                    proof {
                        assert(self.slots_model() =~= step.slots);
                    }
                    result
                } else {
                    proof {
                        assert(self.slots_model() =~= step.slots);
                    }
                    Ok(None)
                }
            },
            TyCanFrameType::TimeBroadcast => {
                proof {
                    assert(self.slots_model() =~= step.slots);
                }
                if data.len() < 8 {
                    return Ok(None);
                }
                if data[0] == 0x50 && data[1] == 0x05 && data[7] == 0x00 {
                    let meta = FrameMeta {
                        src_id,
                        dest_id,
                        id: pid,
                        len: 0,
                        data_type: 0,
                        command_type: 0,
                        flag: FrameFlag { can_time_broadcast: true, uart_telemetry: false },
                    };
                    let payload = vstd::slice::slice_subrange(data, 2, 6);
                    let frame = Frame::new(meta, payload)?;
                    Ok(Some(frame))
                } else {
                    Err(
                        DeviceAdaptorError::FrameError(
                            "invalid time broadcast payload".to_owned(),
                        ),
                    )
                }
            },
            TyCanFrameType::Reset => {
                proof {
                    assert(self.slots_model() =~= step.slots);
                }
                Ok(None)
            },
            TyCanFrameType::Unknown => {
                proof {
                    assert(self.slots_model() =~= step.slots);
                }
                Ok(None)
            },
        }
    }
}

/// The high byte of a 16-bit value.
pub open spec fn spec_u16_hi(x: u16) -> u8 {
    (x / 256) as u8
}

/// The low byte of a 16-bit value.
pub open spec fn spec_u16_lo(x: u16) -> u8 {
    (x % 256) as u8
}

/// The single-frame header bytes: the request pair when the sender is the
/// OBC, the response pair otherwise.
pub open spec fn spec_single_hdr2(is_obc: bool) -> Seq<u8> {
    if is_obc {
        seq![
            TY_CAN_PROTOCOL_TYPE_OBC_COMMAND_REQUEST,
            TY_CAN_PROTOCOL_UTILITES_SINGLE_REQUEST,
        ]
    } else {
        seq![TY_CAN_PROTOCOL_TYPE_RESPONSE, TY_CAN_PROTOCOL_UTILITES_SINGLE_RESPONSE]
    }
}

/// The `type` and `utilities` bytes of a multi-frame header.
pub open spec fn spec_multi_hdr2(is_obc: bool) -> Seq<u8> {
    if is_obc {
        seq![TY_CAN_PROTOCOL_TYPE_OBC_COMMAND_REQUEST, TY_CAN_PROTOCOL_UTILITES_MULTI_REQUEST]
    } else {
        seq![TY_CAN_PROTOCOL_TYPE_RESPONSE, TY_CAN_PROTOCOL_UTILITES_MULTI_RESPONSE]
    }
}

/// The full wire image of a multi-frame transmission of payload `p`: the
/// big-endian total length, the header pair, the payload, and the wrapping
/// sum over header pair and payload.
pub open spec fn multi_wire_bytes(is_obc: bool, p: Seq<u8>) -> Seq<u8> {
    let body = spec_multi_hdr2(is_obc) + p;
    let tl = (p.len() + 2) as u16;
    seq![spec_u16_hi(tl), spec_u16_lo(tl)] + body + seq![sum_bytes(body)]
}

/// Attach the 2-byte single-frame header in front of the payload, in place.
/// The request pair is used when the sender is the OBC, the response pair
/// otherwise. Fails when the head slack is too small.
pub fn attach_single_frame_hdr(is_obc: bool, frame: &mut Frame) -> (r: Result<
    usize,
    DeviceAdaptorError,
>)
    requires
        old(frame).wf(),
    ensures
        final(frame).wf(),
        r is Err <==> old(frame).offset < 2,
        r is Err ==> *final(frame) == *old(frame) && r->Err_0 is FrameError,
        r is Ok ==> {
            &&& r->Ok_0 == 2usize
            &&& final(frame).payload() == spec_single_hdr2(is_obc) + old(frame).payload()
            &&& final(frame).meta == (FrameMeta {
                len: (old(frame).meta.len + 2) as u16,
                ..old(frame).meta
            })
            &&& final(frame).offset == old(frame).offset - 2
            &&& final(frame).data@.len() == old(frame).data@.len()
        },
{
    frame.expand_head(2)?;
    if is_obc {
        frame.write_byte(0, TY_CAN_PROTOCOL_TYPE_OBC_COMMAND_REQUEST);
        frame.write_byte(1, TY_CAN_PROTOCOL_UTILITES_SINGLE_REQUEST);
    } else {
        frame.write_byte(0, TY_CAN_PROTOCOL_TYPE_RESPONSE);
        frame.write_byte(1, TY_CAN_PROTOCOL_UTILITES_SINGLE_RESPONSE);
    }
    proof {
        assert(frame.payload() =~= spec_single_hdr2(is_obc) + old(frame).payload());
    }
    Ok(2)
}

/// Attach the 4-byte multi-frame header in front of the payload and the
/// checksum byte behind it, in place. The checksum is the wrapping sum over
/// `type`, `utilities` and payload. Fails when the slack is too small.
pub fn attach_multi_frame_hdr_and_checksum(is_obc: bool, frame: &mut Frame) -> (r: Result<
    usize,
    DeviceAdaptorError,
>)
    requires
        old(frame).wf(),
        old(frame).meta.len + 2 <= 0xffff,
    ensures
        final(frame).wf(),
        r is Err <==> (old(frame).offset < 4 || old(frame).offset + old(frame).meta.len + 1
            > crate::frame::FRAME_DATA_LENGTH || old(frame).offset + old(frame).meta.len + 1 > old(
            frame,
        ).data@.len()),
        r is Err ==> r->Err_0 is FrameError,
        r is Ok ==> {
            &&& final(frame).payload() == multi_wire_bytes(is_obc, old(frame).payload())
            &&& final(frame).meta == (FrameMeta {
                len: (old(frame).meta.len + 5) as u16,
                ..old(frame).meta
            })
            &&& final(frame).offset == old(frame).offset - 4
            &&& final(frame).data@.len() == old(frame).data@.len()
        },
{
    let len = frame.len() as u16;
    if frame.offset < 4 {
        return Err(DeviceAdaptorError::FrameError("expand_head".to_owned()));
    }
    if frame.offset as usize + frame.len() + 1 > crate::frame::FRAME_DATA_LENGTH
        || frame.offset as usize + frame.len() + 1 > frame.data.len() {
        return Err(DeviceAdaptorError::FrameError("expand_tail".to_owned()));
    }
    let r_head = frame.expand_head(4);
    proof {
        assert(r_head is Ok);
    }
    let total_len: u16 = len + 2;
    frame.write_byte(0, (total_len / 256) as u8);
    frame.write_byte(1, (total_len % 256) as u8);
    if is_obc {
        frame.write_byte(2, TY_CAN_PROTOCOL_TYPE_OBC_COMMAND_REQUEST);
        frame.write_byte(3, TY_CAN_PROTOCOL_UTILITES_MULTI_REQUEST);
    } else {
        frame.write_byte(2, TY_CAN_PROTOCOL_TYPE_RESPONSE);
        frame.write_byte(3, TY_CAN_PROTOCOL_UTILITES_MULTI_RESPONSE);
    }
    proof {
        assert(frame.payload().subrange(2, frame.meta.len as int) =~= spec_multi_hdr2(is_obc)
            + old(frame).payload());
    }
    let cs = {
        let visible = frame.data();
        get_checksum(vstd::slice::slice_subrange(visible, 2, visible.len()))
    };
    let r_tail = frame.expand_tail(1);
    proof {
        assert(r_tail is Ok);
    }
    frame.write_byte(len as usize + 4, cs);
    proof {
        assert(frame.payload() =~= multi_wire_bytes(is_obc, old(frame).payload()));
    }
    Ok(4)
}

/// One raw CAN frame ready for the bus: a 29-bit extended identifier and at
/// most eight data bytes.
pub struct CanWireFrame {
    /// The raw extended identifier.
    pub id: u32,
    /// The data bytes.
    pub data: Vec<u8>,
}

impl CanWireFrame {
    /// Well-formedness: the data fits one CAN frame and the identifier fits
    /// 29 bits.
    pub open spec fn wf(&self) -> bool {
        &&& self.data@.len() <= TY_CAN_PROTOCOL_CAN_FRAME_SIZE
        &&& self.id < 0x20000000
    }
}

/// Whether the frame `f` makes the CAN encoder fail: over-MTU payloads, time
/// broadcasts whose payload is not the 4-byte timestamp, and frames without
/// the slack the headers need.
pub open spec fn can_encode_rejects(f: Frame) -> bool {
    ||| f.meta.len > TY_CAN_PROTOCOL_PAYLOAD_MAX_SIZE
    ||| (f.meta.flag.can_time_broadcast && (f.meta.len != 4 || f.offset < 2 || f.offset
        + f.meta.len + 2 > crate::frame::FRAME_DATA_LENGTH || f.offset + f.meta.len + 2
        > f.data@.len()))
    ||| (!f.meta.flag.can_time_broadcast && f.meta.len <= TY_CAN_PROTOCOL_SINGLE_FRAME_MAX
        && f.offset < 2)
    ||| (!f.meta.flag.can_time_broadcast && f.meta.len > TY_CAN_PROTOCOL_SINGLE_FRAME_MAX && (
    f.offset < 4 || f.offset + f.meta.len + 1 > crate::frame::FRAME_DATA_LENGTH || f.offset
        + f.meta.len + 1 > f.data@.len()))
}

/// The identifier fields every encoded fragment of one transmission carries.
pub open spec fn wire_id_fields(id: u32, pid: u8, ft: TyCanFrameType, dest: u8, src: u8) -> bool {
    &&& spec_pid_of(id) == pid
    &&& !spec_is_csp_of(id)
    &&& spec_frame_type_of(id) == ft.spec_code()
    &&& spec_dest_of(id) == dest
    &&& spec_src_of(id) == src
}

impl TyCanProtocol {
    /// Encode one bus frame into the raw CAN frames that carry it.
    ///
    /// A time broadcast becomes one frame `50 05 t0 t1 t2 t3 00 00` to the
    /// broadcast ID. A payload of up to six bytes becomes one single frame.
    /// A longer payload is framed by `attach_multi_frame_hdr_and_checksum`
    /// and fragmented into eight-byte frames, a `MultiFirst` then
    /// `MultiMiddle`s. The header pair is the request pair when the frame's
    /// source is the OBC, the response pair otherwise. One packet ID is drawn
    /// per transmission.
    pub fn encode(&mut self, frame: Frame) -> (r: Result<Vec<CanWireFrame>, DeviceAdaptorError>)
        requires
            old(self).wf(),
            frame.wf(),
        ensures
            final(self).wf(),
            final(self).spec_src_id() == old(self).spec_src_id(),
            final(self).slots_model() == old(self).slots_model(),
            final(self).slots_model().len() == RECV_BUF_SLOT_NUM,
            r is Err <==> can_encode_rejects(frame),
            r is Err ==> r->Err_0 is FrameError && final(self).spec_id_counter() == old(
                self,
            ).spec_id_counter(),
            r is Ok && frame.meta.flag.can_time_broadcast ==> {
                let fs = r->Ok_0@;
                &&& final(self).spec_id_counter() == old(self).spec_id_counter()
                &&& fs.len() == 1
                &&& fs[0].wf()
                &&& fs[0].data@ == seq![0x50u8, 0x05u8] + frame.payload() + seq![0x00u8, 0x00u8]
                &&& wire_id_fields(
                    fs[0].id,
                    0,
                    TyCanFrameType::TimeBroadcast,
                    TY_CAN_BROADCAST_ID,
                    TY_CAN_OBC_ID,
                )
            },
            r is Ok && !frame.meta.flag.can_time_broadcast && frame.meta.len
                <= TY_CAN_PROTOCOL_SINGLE_FRAME_MAX ==> {
                let fs = r->Ok_0@;
                &&& final(self).spec_id_counter() == (old(self).spec_id_counter() + 1) % 256
                &&& fs.len() == 1
                &&& fs[0].wf()
                &&& fs[0].data@ == spec_single_hdr2(frame.meta.src_id == TY_CAN_OBC_ID)
                    + frame.payload()
                &&& wire_id_fields(
                    fs[0].id,
                    old(self).spec_id_counter(),
                    TyCanFrameType::Single,
                    frame.meta.dest_id,
                    old(self).spec_src_id(),
                )
            },
            r is Ok && !frame.meta.flag.can_time_broadcast && frame.meta.len
                > TY_CAN_PROTOCOL_SINGLE_FRAME_MAX ==> {
                let fs = r->Ok_0@;
                let wire = multi_wire_bytes(frame.meta.src_id == TY_CAN_OBC_ID, frame.payload());
                &&& final(self).spec_id_counter() == (old(self).spec_id_counter() + 1) % 256
                &&& fs.len() == (wire.len() + 7) / 8
                &&& forall|i: int|
                    0 <= i < fs.len() ==> (#[trigger] fs[i]).data@ == wire.subrange(
                        8 * i,
                        if 8 * i + 8 <= wire.len() {
                            8 * i + 8
                        } else {
                            wire.len() as int
                        },
                    )
                &&& forall|i: int| 0 <= i < fs.len() ==> (#[trigger] fs[i]).wf()
                &&& forall|i: int|
                    0 <= i < fs.len() ==> wire_id_fields(
                        (#[trigger] fs[i]).id,
                        old(self).spec_id_counter(),
                        if i == 0 {
                            TyCanFrameType::MultiFirst
                        } else {
                            TyCanFrameType::MultiMiddle
                        },
                        frame.meta.dest_id,
                        old(self).spec_src_id(),
                    )
            },
    {
        let ghost orig = frame;
        let mut frame = frame;
        if frame.len() > TY_CAN_PROTOCOL_PAYLOAD_MAX_SIZE {
            return Err(DeviceAdaptorError::FrameError("invalid length".to_owned()));
        }
        if frame.meta.flag.can_time_broadcast {
            if frame.len() != 4 {
                return Err(
                    DeviceAdaptorError::FrameError(
                        "broadcast frame data length is invalid".to_owned(),
                    ),
                );
            }
            frame.expand_head(2)?;
            frame.expand_tail(2)?;
            frame.write_byte(0, 0x50);
            frame.write_byte(1, 0x05);
            frame.write_byte(6, 0x00);
            frame.write_byte(7, 0x00);
            let id = TyCanId::new(
                0,
                false,
                TyCanFrameType::TimeBroadcast.code(),
                TY_CAN_BROADCAST_ID,
                TY_CAN_OBC_ID,
            );
            proof {
                assert(frame.payload() =~= seq![0x50u8, 0x05u8] + orig.payload() + seq![
                    0x00u8,
                    0x00u8,
                ]);
            }
            let data = vstd::slice::slice_to_vec(frame.data());
            let mut result: Vec<CanWireFrame> = Vec::new();
            result.push(CanWireFrame { id: id.raw, data });
            return Ok(result);
        }
        let is_obc = frame.meta.src_id == TY_CAN_OBC_ID;
        let pid = self.id_counter;
        if frame.len() <= TY_CAN_PROTOCOL_SINGLE_FRAME_MAX {
            attach_single_frame_hdr(is_obc, &mut frame)?;
            self.id_counter = ((self.id_counter as u16 + 1) % 256) as u8;
            let id = TyCanId::new(
                pid,
                false,
                TyCanFrameType::Single.code(),
                frame.meta.dest_id,
                self.src_id,
            );
            let data = vstd::slice::slice_to_vec(frame.data());
            let mut result: Vec<CanWireFrame> = Vec::new();
            result.push(CanWireFrame { id: id.raw, data });
            Ok(result)
        } else {
            attach_multi_frame_hdr_and_checksum(is_obc, &mut frame)?;
            self.id_counter = ((self.id_counter as u16 + 1) % 256) as u8;
            let ghost wire = frame.payload();
            let first_id = TyCanId::new(
                pid,
                false,
                TyCanFrameType::MultiFirst.code(),
                frame.meta.dest_id,
                self.src_id,
            );
            let mid_id = TyCanId::new(
                pid,
                false,
                TyCanFrameType::MultiMiddle.code(),
                frame.meta.dest_id,
                self.src_id,
            );
            let visible = frame.data();
            let mut result: Vec<CanWireFrame> = Vec::new();
            let mut offset: usize = 0;
            while offset < visible.len()
                invariant
                    visible@ == wire,
                    wire.len() > 8,
                    offset <= visible@.len(),
                    offset % 8 == 0 || offset == wire.len(),
                    first_id.raw < 0x20000000,
                    mid_id.raw < 0x20000000,
                    result@.len() == (offset + 7) / 8,
                    forall|i: int|
                        0 <= i < result@.len() ==> (#[trigger] result@[i]).data@ == wire.subrange(
                            8 * i,
                            if 8 * i + 8 <= wire.len() {
                                8 * i + 8
                            } else {
                                wire.len() as int
                            },
                        ),
                    forall|i: int| 0 <= i < result@.len() ==> (#[trigger] result@[i]).wf(),
                    forall|i: int|
                        0 <= i < result@.len() ==> (#[trigger] result@[i]).id == (if i == 0 {
                            first_id.raw
                        } else {
                            mid_id.raw
                        }),
                decreases visible@.len() - offset,
            {
                let this_len = if visible.len() - offset > TY_CAN_PROTOCOL_CAN_FRAME_SIZE {
                    TY_CAN_PROTOCOL_CAN_FRAME_SIZE
                } else {
                    visible.len() - offset
                };
                let chunk = vstd::slice::slice_to_vec(
                    vstd::slice::slice_subrange(visible, offset, offset + this_len),
                );
                let id = if offset == 0 {
                    first_id.raw
                } else {
                    mid_id.raw
                };
                result.push(CanWireFrame { id, data: chunk });
                offset += this_len;
            }
            proof {
                assert(result@.len() == (wire.len() + 7) / 8);
            }
            Ok(result)
        }
    }
}

} // verus!
