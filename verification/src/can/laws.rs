//! Laws of the CAN codec: a frame that the encoder fragments is reassembled
//! by the decoder to the same payload, and a corrupted fragment is caught by
//! the checksum.
use vstd::prelude::*;

use crate::can::codec::{
    can_step, multi_wire_bytes, slot_model_empty, spec_be16, spec_multi_hdr2, spec_single_hdr2,
    spec_u16_hi, spec_u16_lo, wire_id_fields, CanStep, CanStepOut, FrameOut, SlotModel,
    RECV_BUF_SLOT_NUM, TY_CAN_PROTOCOL_PAYLOAD_MAX_SIZE, TY_CAN_PROTOCOL_SINGLE_FRAME_MAX,
};
use crate::can::id::{spec_src_of, TyCanFrameType};
use crate::can::codec::sum_bytes;
use crate::frame::FrameFlag;

verus! {

/// The result of decoding a whole sequence of raw CAN frames in order: the
/// slot states afterwards, and one output per frame.
pub struct CanRun {
    /// The slot states after the last step.
    pub slots: Seq<SlotModel>,
    /// The outputs, one per frame, in order.
    pub outs: Seq<CanStepOut>,
}

/// Decode the frames `ids[i], datas[i]` in order, each step as `can_step`.
pub open spec fn can_run(
    slots: Seq<SlotModel>,
    self_id: u8,
    ids: Seq<u32>,
    datas: Seq<Seq<u8>>,
) -> CanRun
    decreases ids.len(),
{
    if ids.len() == 0 {
        CanRun { slots, outs: Seq::<CanStepOut>::empty() }
    } else {
        let first = can_step(slots, self_id, ids[0], datas[0]);
        let rest = can_run(first.slots, self_id, ids.skip(1), datas.skip(1));
        CanRun { slots: rest.slots, outs: seq![first.out] + rest.outs }
    }
}

/// A single-byte change anywhere in a sequence changes its wrapping sum.
pub proof fn lemma_sum_detects_single_flip(s: Seq<u8>, t: Seq<u8>, i: int)
    requires
        s.len() == t.len(),
        0 <= i < s.len(),
        s[i] != t[i],
        forall|j: int| 0 <= j < s.len() && j != i ==> s[j] == t[j],
    ensures
        sum_bytes(s) != sum_bytes(t),
    decreases s.len(),
{
    if i == s.len() - 1 {
        assert(s.drop_last() =~= t.drop_last());
    } else {
        lemma_sum_detects_single_flip(s.drop_last(), t.drop_last(), i);
        assert(s.last() == t.last());
    }
}

/// The fields every fragment of one multi-frame transmission must carry for
/// the reassembly lemmas: a `MultiMiddle` identifier from `sender` with the
/// transmission's packet ID.
pub open spec fn middle_ids_ok(ids: Seq<u32>, pid: u8, dest: u8, sender: u8) -> bool {
    forall|i: int|
        0 <= i < ids.len() ==> wire_id_fields(
            #[trigger] ids[i],
            pid,
            TyCanFrameType::MultiMiddle,
            dest,
            sender,
        )
}

/// The continuation fragments of `wire` from byte `consumed` on: eight-byte
/// chunks, the last one shorter when the tail is.
pub open spec fn middle_datas_ok(datas: Seq<Seq<u8>>, wire: Seq<u8>, consumed: int) -> bool {
    &&& datas.len() == (wire.len() - consumed + 7) / 8
    &&& forall|i: int|
        0 <= i < datas.len() ==> (#[trigger] datas[i]) == wire.subrange(
            consumed + 8 * i,
            if consumed + 8 * i + 8 <= wire.len() {
                consumed + 8 * i + 8
            } else {
                wire.len() as int
            },
        )
}

/// Feeding the continuation fragments of a transmission into an armed slot
/// reassembles it: every step but the last produces nothing; the last step
/// hands the payload up when the checksum over `type`, `utilities` and
/// payload matches the trailing byte and the payload fits a frame, and
/// rejects the transmission otherwise. Either way the slot ends empty.
pub proof fn lemma_feed_middles(
    slots: Seq<SlotModel>,
    receiver: u8,
    sender: u8,
    dest: u8,
    pid: u8,
    wire: Seq<u8>,
    ids: Seq<u32>,
    datas: Seq<Seq<u8>>,
    consumed: int,
)
    requires
        slots.len() == RECV_BUF_SLOT_NUM,
        sender != receiver,
        11 <= wire.len() <= 157,
        8 <= consumed < wire.len(),
        slots[pid as int % (RECV_BUF_SLOT_NUM as int)] == (SlotModel {
            received: wire.take(consumed),
            total: wire.len() as u16,
            valid: true,
        }),
        middle_ids_ok(ids, pid, dest, sender),
        ids.len() == datas.len(),
        middle_datas_ok(datas, wire, consumed),
    ensures
        ({
            let r = can_run(slots, receiver, ids, datas);
            let idx = pid as int % (RECV_BUF_SLOT_NUM as int);
            &&& r.outs.len() == ids.len()
            &&& forall|i: int| 0 <= i < r.outs.len() - 1 ==> (#[trigger] r.outs[i]) is Nothing
            &&& r.outs.last() == (if sum_bytes(wire.subrange(2, wire.len() - 1))
                == wire[wire.len() - 1] && wire.len() - 5 <= crate::frame::FRAME_MAX_LENGTH {
                CanStepOut::Deliver(
                    FrameOut {
                        src_id: sender,
                        dest_id: dest,
                        id: pid,
                        flag: FrameFlag::spec_empty(),
                        payload: wire.subrange(4, wire.len() - 1),
                    },
                )
            } else {
                CanStepOut::Reject
            })
            &&& r.slots == slots.update(idx, slot_model_empty())
        }),
    decreases ids.len(),
{
    let idx = pid as int % (RECV_BUF_SLOT_NUM as int);
    let step = can_step(slots, receiver, ids[0], datas[0]);
    assert(spec_src_of(ids[0]) == sender);
    let slot = slots[idx];
    let chunk = datas[0];
    assert(chunk == wire.subrange(
        consumed,
        if consumed + 8 <= wire.len() {
            consumed + 8
        } else {
            wire.len() as int
        },
    ));
    let rec = slot.received + chunk;
    if consumed + 8 >= wire.len() {
        // the last fragment: the slot becomes complete
        assert(datas.len() == 1);
        assert(rec =~= wire.take(consumed) + wire.subrange(consumed, wire.len() as int));
        assert(rec =~= wire);
        assert(rec.len() == slot.total);
        let rest = can_run(step.slots, receiver, ids.skip(1), datas.skip(1));
        assert(ids.skip(1).len() == 0);
        assert(can_run(slots, receiver, ids, datas).outs =~= seq![step.out]);
    } else {
        // a middle fragment: the slot keeps filling
        assert(chunk.len() == 8);
        assert(rec.len() == consumed + 8 < wire.len());
        assert(rec.len() < slot.total);
        assert(step.out is Nothing);
        assert(rec =~= wire.take(consumed + 8));
        assert(step.slots == slots.update(idx, SlotModel { received: rec, ..slot }));
        assert(step.slots[idx] == (SlotModel {
            received: wire.take(consumed + 8),
            total: wire.len() as u16,
            valid: true,
        }));
        assert(middle_datas_ok(datas.skip(1), wire, consumed + 8)) by {
            assert(datas.skip(1).len() == (wire.len() - (consumed + 8) + 7) / 8);
            assert forall|i: int| 0 <= i < datas.skip(1).len() implies (#[trigger] datas.skip(1)[i])
                == wire.subrange(
                consumed + 8 + 8 * i,
                if consumed + 8 + 8 * i + 8 <= wire.len() {
                    consumed + 8 + 8 * i + 8
                } else {
                    wire.len() as int
                },
            ) by {
                assert(datas.skip(1)[i] == datas[i + 1]);
                assert(consumed + 8 * (i + 1) == consumed + 8 + 8 * i);
            }
        }
        assert(middle_ids_ok(ids.skip(1), pid, dest, sender)) by {
            assert forall|i: int| 0 <= i < ids.skip(1).len() implies wire_id_fields(
                #[trigger] ids.skip(1)[i],
                pid,
                TyCanFrameType::MultiMiddle,
                dest,
                sender,
            ) by {
                assert(ids.skip(1)[i] == ids[i + 1]);
            }
        }
        lemma_feed_middles(
            step.slots,
            receiver,
            sender,
            dest,
            pid,
            wire,
            ids.skip(1),
            datas.skip(1),
            consumed + 8,
        );
        let rest = can_run(step.slots, receiver, ids.skip(1), datas.skip(1));
        assert(can_run(slots, receiver, ids, datas).outs =~= seq![step.out] + rest.outs);
        assert(rest.slots == step.slots.update(idx, slot_model_empty()));
        assert(step.slots.update(idx, slot_model_empty()) =~= slots.update(
            idx,
            slot_model_empty(),
        ));
    }
}

/// The checksum byte of an encoded multi-frame transmission matches the
/// wrapping sum over its `type`, `utilities` and payload bytes, and the
/// length field carries the length of those three parts.
pub proof fn lemma_multi_wire_shape(is_obc: bool, p: Seq<u8>)
    requires
        p.len() + 2 <= 0xffff,
    ensures
        ({
            let wire = multi_wire_bytes(is_obc, p);
            &&& wire.len() == p.len() + 5
            &&& spec_be16(wire[0], wire[1]) == p.len() + 2
            &&& wire.subrange(2, wire.len() - 1) =~= spec_multi_hdr2(is_obc) + p
            &&& wire[wire.len() - 1] == sum_bytes(spec_multi_hdr2(is_obc) + p)
            &&& wire.subrange(4, wire.len() - 1) =~= p
            &&& wire[2] == spec_multi_hdr2(is_obc)[0]
            &&& wire[3] == spec_multi_hdr2(is_obc)[1]
        }),
{
    let wire = multi_wire_bytes(is_obc, p);
    let tl = (p.len() + 2) as u16;
    assert(spec_be16(spec_u16_hi(tl), spec_u16_lo(tl)) == tl);
    assert(wire.subrange(2, wire.len() - 1) =~= spec_multi_hdr2(is_obc) + p);
    assert(wire.subrange(4, wire.len() - 1) =~= p);
}

/// Round trip of a single-frame transmission: decoding the one frame the
/// encoder produces for a request payload of up to six bytes hands exactly
/// that payload up, with the sender, destination and packet ID of the
/// identifier.
pub proof fn lemma_can_round_trip_single(
    slots: Seq<SlotModel>,
    receiver: u8,
    sender: u8,
    dest: u8,
    pid: u8,
    p: Seq<u8>,
    id0: u32,
    data0: Seq<u8>,
)
    requires
        slots.len() == RECV_BUF_SLOT_NUM,
        sender != receiver,
        p.len() <= TY_CAN_PROTOCOL_SINGLE_FRAME_MAX,
        data0 == spec_single_hdr2(true) + p,
        wire_id_fields(id0, pid, TyCanFrameType::Single, dest, sender),
    ensures
        can_step(slots, receiver, id0, data0) == (CanStep {
            slots,
            out: CanStepOut::Deliver(
                FrameOut {
                    src_id: sender,
                    dest_id: dest,
                    id: pid,
                    flag: FrameFlag::spec_empty(),
                    payload: p,
                },
            ),
        }),
{
    assert(data0.len() == p.len() + 2);
    assert(data0[0] == 0x05 && data0[1] == 0x01);
    assert(data0.skip(2) =~= p);
}

/// Round trip of a multi-frame transmission: decoding, in order, the frames
/// the encoder produces for a request payload longer than six bytes produces
/// nothing until the last fragment, which hands exactly that payload up,
/// with the sender, destination and packet ID of the identifiers; the
/// reassembly slot ends empty.
pub proof fn lemma_can_round_trip_multi(
    slots: Seq<SlotModel>,
    receiver: u8,
    sender: u8,
    dest: u8,
    pid: u8,
    p: Seq<u8>,
    ids: Seq<u32>,
    datas: Seq<Seq<u8>>,
)
    requires
        slots.len() == RECV_BUF_SLOT_NUM,
        sender != receiver,
        TY_CAN_PROTOCOL_SINGLE_FRAME_MAX < p.len() <= TY_CAN_PROTOCOL_PAYLOAD_MAX_SIZE,
        ids.len() == datas.len() == (multi_wire_bytes(true, p).len() + 7) / 8,
        middle_datas_ok(datas, multi_wire_bytes(true, p), 0),
        wire_id_fields(ids[0], pid, TyCanFrameType::MultiFirst, dest, sender),
        middle_ids_ok(ids.skip(1), pid, dest, sender),
    ensures
        ({
            let r = can_run(slots, receiver, ids, datas);
            let idx = pid as int % (RECV_BUF_SLOT_NUM as int);
            &&& r.outs.len() == ids.len()
            &&& forall|i: int| 0 <= i < r.outs.len() - 1 ==> (#[trigger] r.outs[i]) is Nothing
            &&& r.outs.last() == CanStepOut::Deliver(
                FrameOut {
                    src_id: sender,
                    dest_id: dest,
                    id: pid,
                    flag: FrameFlag::spec_empty(),
                    payload: p,
                },
            )
            &&& r.slots == slots.update(idx, slot_model_empty())
        }),
{
    let wire = multi_wire_bytes(true, p);
    let idx = pid as int % (RECV_BUF_SLOT_NUM as int);
    lemma_multi_wire_shape(true, p);
    assert(wire.len() == p.len() + 5);
    let step = can_step(slots, receiver, ids[0], datas[0]);
    assert(datas[0] == wire.subrange(0, 8));
    assert(datas[0].len() == 8);
    assert(datas[0][2] == wire[2] && datas[0][3] == wire[3]);
    assert(spec_be16(datas[0][0], datas[0][1]) == p.len() + 2);
    assert(step.out is Nothing);
    assert(step.slots[idx] == (SlotModel {
        received: wire.subrange(0, 8),
        total: wire.len() as u16,
        valid: true,
    }));
    assert(wire.subrange(0, 8) =~= wire.take(8));
    assert(middle_datas_ok(datas.skip(1), wire, 8)) by {
        assert(datas.skip(1).len() == (wire.len() - 8 + 7) / 8);
        assert forall|i: int| 0 <= i < datas.skip(1).len() implies (#[trigger] datas.skip(1)[i])
            == wire.subrange(
            8 + 8 * i,
            if 8 + 8 * i + 8 <= wire.len() {
                8 + 8 * i + 8
            } else {
                wire.len() as int
            },
        ) by {
            assert(datas.skip(1)[i] == datas[i + 1]);
            assert(8 * (i + 1) == 8 + 8 * i);
        }
    }
    lemma_feed_middles(
        step.slots,
        receiver,
        sender,
        dest,
        pid,
        wire,
        ids.skip(1),
        datas.skip(1),
        8,
    );
    let rest = can_run(step.slots, receiver, ids.skip(1), datas.skip(1));
    assert(sum_bytes(wire.subrange(2, wire.len() - 1)) == wire[wire.len() - 1]);
    assert(wire.len() - 5 <= crate::frame::FRAME_MAX_LENGTH);
    assert(rest.outs.last() == CanStepOut::Deliver(
        FrameOut {
            src_id: sender,
            dest_id: dest,
            id: pid,
            flag: FrameFlag::spec_empty(),
            payload: p,
        },
    ));
    assert(can_run(slots, receiver, ids, datas).outs =~= seq![step.out] + rest.outs);
    assert(step.slots.update(idx, slot_model_empty()) =~= slots.update(idx, slot_model_empty()));
}

/// A transport that flips one byte in the checksummed region of a
/// multi-frame transmission is caught: the reassembled bytes fail the
/// checksum comparison that `can_step` makes on completion.
pub proof fn lemma_multi_frame_flip_detected(is_obc: bool, p: Seq<u8>, corrupted: Seq<u8>, k: int)
    requires
        p.len() + 2 <= 0xffff,
        corrupted.len() == multi_wire_bytes(is_obc, p).len(),
        2 <= k < corrupted.len() - 1,
        corrupted[k] != multi_wire_bytes(is_obc, p)[k],
        forall|j: int|
            0 <= j < corrupted.len() && j != k ==> corrupted[j] == multi_wire_bytes(is_obc, p)[j],
    ensures
        sum_bytes(corrupted.subrange(2, corrupted.len() - 1)) != corrupted[corrupted.len() - 1],
{
    let wire = multi_wire_bytes(is_obc, p);
    lemma_multi_wire_shape(is_obc, p);
    let covered = wire.subrange(2, wire.len() - 1);
    let covered2 = corrupted.subrange(2, corrupted.len() - 1);
    assert(covered2.len() == covered.len());
    assert(covered2[k - 2] != covered[k - 2]);
    assert(forall|j: int| 0 <= j < covered.len() && j != k - 2 ==> covered2[j] == covered[j]);
    lemma_sum_detects_single_flip(covered, covered2, k - 2);
    assert(corrupted[corrupted.len() - 1] == wire[wire.len() - 1]);
    assert(sum_bytes(covered) == wire[wire.len() - 1]);
}

/// Decoding the corrupted last fragment of a multi-frame transmission whose
/// checksummed region took a single-byte flip rejects the transmission with
/// a `FrameError` outcome, and resets the slot.
pub proof fn lemma_can_multi_corruption_rejected(
    slots: Seq<SlotModel>,
    receiver: u8,
    sender: u8,
    dest: u8,
    pid: u8,
    p: Seq<u8>,
    corrupted: Seq<u8>,
    k: int,
    ids: Seq<u32>,
    datas: Seq<Seq<u8>>,
)
    requires
        slots.len() == RECV_BUF_SLOT_NUM,
        sender != receiver,
        TY_CAN_PROTOCOL_SINGLE_FRAME_MAX < p.len() <= TY_CAN_PROTOCOL_PAYLOAD_MAX_SIZE,
        corrupted.len() == multi_wire_bytes(true, p).len(),
        2 <= k < corrupted.len() - 1,
        corrupted[k] != multi_wire_bytes(true, p)[k],
        forall|j: int|
            0 <= j < corrupted.len() && j != k ==> corrupted[j] == multi_wire_bytes(true, p)[j],
        8 <= corrupted.len(),
        slots[pid as int % (RECV_BUF_SLOT_NUM as int)] == (SlotModel {
            received: corrupted.take(8),
            total: corrupted.len() as u16,
            valid: true,
        }),
        ids.len() == datas.len() == (corrupted.len() - 8 + 7) / 8,
        middle_datas_ok(datas, corrupted, 8),
        middle_ids_ok(ids, pid, dest, sender),
    ensures
        ({
            let r = can_run(slots, receiver, ids, datas);
            &&& r.outs.len() == ids.len()
            &&& r.outs.last() == CanStepOut::Reject
            &&& r.slots == slots.update(
                pid as int % (RECV_BUF_SLOT_NUM as int),
                slot_model_empty(),
            )
        }),
{
    lemma_multi_wire_shape(true, p);
    lemma_multi_frame_flip_detected(true, p, corrupted, k);
    lemma_feed_middles(slots, receiver, sender, dest, pid, corrupted, ids, datas, 8);
}

} // verus!
