//! The telemetry application: it collects a snapshot from the fallback side
//! channel and answers with a fixed-size telemetry record.
use vstd::prelude::*;

use crate::envelope::Frame;
use crate::error::DeviceAdaptorError;
use crate::frame::FrameMeta;
use crate::server::{Application, Fallback};

verus! {

/// The application ID the telemetry handler claims.
pub const TELEMETRY_APPLICATION_ID: u8 = 0;

/// The fixed length of a telemetry response record.
pub const TELEMETRY_RESPONSE_LENGTH: u16 = 100;

/// The fixed-size telemetry record a reply fills: as much of the reply as
/// the record holds, padded with zeroes.
pub open spec fn spec_telemetry_record(reply: Seq<u8>) -> Seq<u8> {
    if reply.len() >= TELEMETRY_RESPONSE_LENGTH {
        reply.take(TELEMETRY_RESPONSE_LENGTH as int)
    } else {
        reply + Seq::<u8>::new((TELEMETRY_RESPONSE_LENGTH - reply.len()) as nat, |i: int| 0u8)
    }
}

/// Fill a zeroed record frame with `reply`, as `spec_telemetry_record` says.
pub fn fill_record(response: &mut Frame, reply: &[u8])
    requires
        old(response).wf(),
        old(response).bus_frame.meta.len == TELEMETRY_RESPONSE_LENGTH,
        old(response).bus_frame.payload() == Seq::<u8>::new(
            TELEMETRY_RESPONSE_LENGTH as nat,
            |i: int| 0u8,
        ),
    ensures
        final(response).wf(),
        final(response).bus_frame.payload() == spec_telemetry_record(reply@),
        final(response).bus_frame.meta == old(response).bus_frame.meta,
        final(response).bus_frame.offset == old(response).bus_frame.offset,
        final(response).bus_frame.data@.len() == old(response).bus_frame.data@.len(),
        final(response).application_id == old(response).application_id,
        final(response).hdr_inserted == old(response).hdr_inserted,
{
    let count = if reply.len() < TELEMETRY_RESPONSE_LENGTH as usize {
        reply.len()
    } else {
        TELEMETRY_RESPONSE_LENGTH as usize
    };
    let mut i: usize = 0;
    while i < count
        invariant
            i <= count,
            count <= TELEMETRY_RESPONSE_LENGTH,
            count <= reply@.len(),
            response.wf(),
            response.bus_frame.meta == old(response).bus_frame.meta,
            response.bus_frame.offset == old(response).bus_frame.offset,
            response.bus_frame.data@.len() == old(response).bus_frame.data@.len(),
            response.application_id == old(response).application_id,
            response.hdr_inserted == old(response).hdr_inserted,
            response.bus_frame.payload().len() == TELEMETRY_RESPONSE_LENGTH,
            forall|j: int| 0 <= j < i ==> response.bus_frame.payload()[j] == reply@[j],
            forall|j: int|
                i <= j < TELEMETRY_RESPONSE_LENGTH ==> response.bus_frame.payload()[j] == 0u8,
        decreases count - i,
    {
        response.write_byte(i, reply[i]);
        i += 1;
    }
    proof {
        assert(response.bus_frame.payload() =~= spec_telemetry_record(reply@));
    }
}

/// The telemetry application, over a fallback side channel.
pub struct TeleMetry<F> {
    fallback: F,
}

impl<F> TeleMetry<F> {
    /// Build an empty telemetry request from `src_id` to `dest_id`.
    pub fn request(src_id: u8, dest_id: u8) -> (r: Result<Frame, DeviceAdaptorError>)
        ensures
            r is Ok,
            r is Ok ==> {
                &&& r->Ok_0.wf()
                &&& r->Ok_0.application_id == TELEMETRY_APPLICATION_ID
                &&& !r->Ok_0.hdr_inserted
                &&& r->Ok_0.bus_frame.payload() == Seq::<u8>::empty()
                &&& r->Ok_0.bus_frame.offset == crate::frame::FRAME_DEFAULT_START_OFFSET
                &&& r->Ok_0.bus_frame.meta == (FrameMeta {
                    src_id,
                    dest_id,
                    ..FrameMeta::spec_default()
                })
            },
    {
        let mut frame = Frame::new(TELEMETRY_APPLICATION_ID);
        let mut meta = FrameMeta::default();
        meta.src_id = src_id;
        meta.dest_id = dest_id;
        frame.set_meta(&meta);
        Ok(frame)
    }
}

impl<F: Fallback> TeleMetry<F> {
    /// A telemetry handler over the given side channel.
    pub fn new(fallback: F) -> (r: TeleMetry<F>) {
        TeleMetry { fallback }
    }
}

impl<F: Fallback> Application for TeleMetry<F> {
    open spec fn inv(&self) -> bool {
        true
    }

    /// A successful answer is the fixed-size record filled from whatever the
    /// side channel replied, source and destination exchanged, in a fresh
    /// default-offset frame. Nothing is promised of which reply came back.
    open spec fn handle_post(
        pre: Self,
        frame: Frame,
        mtu: u16,
        post: Self,
        r: Result<Option<Frame>, DeviceAdaptorError>,
    ) -> bool {
        r is Ok ==> {
            let resp = r->Ok_0->0;
            &&& r->Ok_0 is Some
            &&& resp.wf()
            &&& !resp.hdr_inserted
            &&& resp.application_id == TELEMETRY_APPLICATION_ID
            &&& resp.bus_frame.offset == crate::frame::FRAME_DEFAULT_START_OFFSET
            &&& resp.bus_frame.data@.len() == crate::frame::FRAME_DATA_LENGTH
            &&& resp.bus_frame.meta == (FrameMeta {
                src_id: frame.bus_frame.meta.dest_id,
                dest_id: frame.bus_frame.meta.src_id,
                len: TELEMETRY_RESPONSE_LENGTH,
                ..frame.bus_frame.meta
            })
            &&& exists|reply: Seq<u8>|
                resp.bus_frame.payload() == #[trigger] spec_telemetry_record(reply)
        }
    }

    open spec fn spec_application_id(&self) -> u8 {
        TELEMETRY_APPLICATION_ID
    }

    open spec fn spec_application_name(&self) -> Seq<char> {
        "Telemetry"@
    }

    fn application_id(&self) -> (r: u8) {
        TELEMETRY_APPLICATION_ID
    }

    fn application_name(&self) -> (r: &'static str) {
        "Telemetry"
    }

    /// Ask the side channel for a snapshot and answer with a fixed-size
    /// record holding as much of the reply as fits, zero-padded, exactly as
    /// `handle_post` states.
    fn handle(&mut self, frame: &Frame, _mtu: u16) -> (r: Result<
        Option<Frame>,
        DeviceAdaptorError,
    >)
    {
        let mut response = Frame::new(TELEMETRY_APPLICATION_ID);
        response.set_meta_from_request(frame.meta());
        let set = response.set_len(TELEMETRY_RESPONSE_LENGTH);
        proof {
            assert(set is Ok);
            assert(response.bus_frame.payload() =~= Seq::<u8>::new(
                TELEMETRY_RESPONSE_LENGTH as nat,
                |i: int| 0u8,
            ));
        }
        let mut code: Vec<u8> = Vec::new();
        code.push(0x00);
        code.push(0x00);
        code.push(0xea);
        code.push(0x60);
        let reply = self.fallback.fallback(code)?;
        fill_record(&mut response, reply.as_slice());
        proof {
            assert(exists|rep: Seq<u8>|
                response.bus_frame.payload() == #[trigger] spec_telemetry_record(rep)) by {
                assert(response.bus_frame.payload() == spec_telemetry_record(reply@));
            }
        }
        Ok(Some(response))
    }
}

} // verus!
