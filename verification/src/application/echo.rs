//! The echo application: it answers every request with its own payload.
use vstd::prelude::*;

use crate::envelope::Frame;
use crate::error::DeviceAdaptorError;
use crate::frame::FrameMeta;
use crate::server::Application;

verus! {

/// The application ID the echo handler claims.
pub const ECHO_APPLICATION_ID: u8 = 2;

/// The echo application.
pub struct EchoCommand;

impl EchoCommand {
    /// Build an echo request carrying `content`. Fails when `content` is
    /// longer than `mtu`.
    pub fn request(&self, mtu: u16, content: &[u8]) -> (r: Result<Frame, DeviceAdaptorError>)
        ensures
            content@.len() > mtu || content@.len() > crate::frame::FRAME_MAX_LENGTH ==> r is Err,
            r is Err ==> r->Err_0 is FrameError,
            content@.len() <= mtu && content@.len() <= crate::frame::FRAME_MAX_LENGTH ==> {
                &&& r is Ok
                &&& r->Ok_0.wf()
                &&& r->Ok_0.bus_frame.payload() == content@
                &&& r->Ok_0.application_id == ECHO_APPLICATION_ID
                &&& !r->Ok_0.hdr_inserted
            },
    {
        if content.len() > mtu as usize {
            return Err(DeviceAdaptorError::FrameError("too long content".to_owned()));
        }
        Frame::new_from_slice(ECHO_APPLICATION_ID, content)
    }
}

impl Application for EchoCommand {
    open spec fn inv(&self) -> bool {
        true
    }

    /// Echo answers every request it can copy with the request's own payload,
    /// source and destination exchanged, in a fresh default-offset frame, and
    /// fails only on a payload too long to copy.
    open spec fn handle_post(
        pre: Self,
        frame: Frame,
        mtu: u16,
        post: Self,
        r: Result<Option<Frame>, DeviceAdaptorError>,
    ) -> bool {
        &&& (r is Err <==> frame.bus_frame.payload().len() > crate::frame::FRAME_MAX_LENGTH)
        &&& (r is Err ==> r->Err_0 is FrameError)
        &&& (r is Ok ==> {
            let resp = r->Ok_0->0;
            &&& r->Ok_0 is Some
            &&& resp.wf()
            &&& !resp.hdr_inserted
            &&& resp.application_id == ECHO_APPLICATION_ID
            &&& resp.bus_frame.payload() == frame.bus_frame.payload()
            &&& resp.bus_frame.offset == crate::frame::FRAME_DEFAULT_START_OFFSET
            &&& resp.bus_frame.data@.len() == crate::frame::FRAME_DATA_LENGTH
            &&& resp.bus_frame.meta == (FrameMeta {
                src_id: frame.bus_frame.meta.dest_id,
                dest_id: frame.bus_frame.meta.src_id,
                len: frame.bus_frame.payload().len() as u16,
                ..frame.bus_frame.meta
            })
        })
    }

    open spec fn spec_application_id(&self) -> u8 {
        ECHO_APPLICATION_ID
    }

    open spec fn spec_application_name(&self) -> Seq<char> {
        "Echo"@
    }

    fn application_id(&self) -> (r: u8) {
        ECHO_APPLICATION_ID
    }

    fn application_name(&self) -> (r: &'static str) {
        "Echo"
    }

    /// Answer with the request's own payload, source and destination
    /// exchanged, exactly as `handle_post` states.
    fn handle(&mut self, frame: &Frame, _mtu: u16) -> (r: Result<
        Option<Frame>,
        DeviceAdaptorError,
    >)
    {
        let mut response = Frame::new_from_slice(ECHO_APPLICATION_ID, frame.data())?;
        response.set_meta_from_request(frame.meta());
        Ok(Some(response))
    }
}

} // verus!
