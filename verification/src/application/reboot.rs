//! The reboot application: it acknowledges the request; the reboot itself is
//! an operational concern outside the core.
use vstd::prelude::*;

use crate::envelope::Frame;
use crate::error::DeviceAdaptorError;
use crate::frame::FrameMeta;
use crate::server::Application;

verus! {

/// The application ID the reboot handler claims.
pub const REBOOT_APPLICATION_ID: u8 = 3;

/// The reboot application.
pub struct Reboot {}

impl Reboot {
    /// Build an empty reboot request.
    pub fn request(&self) -> (r: Result<Frame, DeviceAdaptorError>)
        ensures
            r is Ok,
            r is Ok ==> {
                &&& r->Ok_0.wf()
                &&& r->Ok_0.application_id == REBOOT_APPLICATION_ID
                &&& r->Ok_0.bus_frame.payload() == Seq::<u8>::empty()
            },
    {
        Ok(Frame::new(REBOOT_APPLICATION_ID))
    }
}

impl Application for Reboot {
    open spec fn inv(&self) -> bool {
        true
    }

    /// Reboot always acknowledges with the bytes `ok`, source and destination
    /// exchanged, in a fresh default-offset frame.
    open spec fn handle_post(
        pre: Self,
        frame: Frame,
        mtu: u16,
        post: Self,
        r: Result<Option<Frame>, DeviceAdaptorError>,
    ) -> bool {
        &&& r is Ok
        &&& ({
            let resp = r->Ok_0->0;
            &&& r->Ok_0 is Some
            &&& resp.wf()
            &&& !resp.hdr_inserted
            &&& resp.application_id == REBOOT_APPLICATION_ID
            &&& resp.bus_frame.payload() == seq![0x6fu8, 0x6bu8]
            &&& resp.bus_frame.offset == crate::frame::FRAME_DEFAULT_START_OFFSET
            &&& resp.bus_frame.data@.len() == crate::frame::FRAME_DATA_LENGTH
            &&& resp.bus_frame.meta == (FrameMeta {
                src_id: frame.bus_frame.meta.dest_id,
                dest_id: frame.bus_frame.meta.src_id,
                len: 2,
                ..frame.bus_frame.meta
            })
        })
    }

    open spec fn spec_application_id(&self) -> u8 {
        REBOOT_APPLICATION_ID
    }

    open spec fn spec_application_name(&self) -> Seq<char> {
        "Reboot"@
    }

    fn application_id(&self) -> (r: u8) {
        REBOOT_APPLICATION_ID
    }

    fn application_name(&self) -> (r: &'static str) {
        "Reboot"
    }

    /// Acknowledge with the bytes `ok`, source and destination exchanged,
    /// exactly as `handle_post` states.
    fn handle(&mut self, frame: &Frame, _mtu: u16) -> (r: Result<
        Option<Frame>,
        DeviceAdaptorError,
    >)
    {
        let mut ack: Vec<u8> = Vec::new();
        ack.push(0x6f);
        ack.push(0x6b);
        let mut response = Frame::new_from_slice(REBOOT_APPLICATION_ID, ack.as_slice())?;
        response.set_meta_from_request(frame.meta());
        proof {
            assert(response.bus_frame.payload() =~= seq![0x6fu8, 0x6bu8]);
        }
        Ok(Some(response))
    }
}

} // verus!
