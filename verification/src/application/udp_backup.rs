//! The UDP backup application: it forwards each request's payload, padded to
//! a fixed command length, over the fallback side channel.
use vstd::prelude::*;

use crate::envelope::Frame;
use crate::error::DeviceAdaptorError;
use crate::frame::FrameMeta;
use crate::server::{Application, Fallback};

verus! {

/// The application ID the UDP backup handler claims.
pub const UDP_BACKUP_APPLICATION_ID: u8 = 6;

/// The fixed length of one forwarded UDP command.
pub const MAX_UDP_COMMAND_LENGTH: usize = 124;

/// The UDP backup application, over a fallback side channel.
pub struct UdpBackup<F> {
    fallback: F,
}

impl<F: Fallback> UdpBackup<F> {
    /// A UDP backup handler over the given side channel.
    pub fn new(fallback: F) -> (r: UdpBackup<F>) {
        UdpBackup { fallback }
    }
}

impl<F> UdpBackup<F> {
    /// Split `data` into request frames of at most the command length, each
    /// addressed from the OBC to `dest_id`.
    pub fn generate_request(data: Vec<u8>, dest_id: u8) -> (r: Result<
        Vec<Frame>,
        DeviceAdaptorError,
    >)
        ensures
            r is Ok,
            r is Ok ==> {
                let fs = r->Ok_0@;
                &&& fs.len() == (data@.len() + MAX_UDP_COMMAND_LENGTH - 1) as int
                    / MAX_UDP_COMMAND_LENGTH as int
                &&& forall|i: int|
                    0 <= i < fs.len() ==> {
                        let chunk = data@.subrange(
                            MAX_UDP_COMMAND_LENGTH * i,
                            if MAX_UDP_COMMAND_LENGTH * (i + 1) <= data@.len() {
                                MAX_UDP_COMMAND_LENGTH * (i + 1)
                            } else {
                                data@.len() as int
                            },
                        );
                        &&& (#[trigger] fs[i]).wf()
                        &&& fs[i].application_id == UDP_BACKUP_APPLICATION_ID
                        &&& fs[i].bus_frame.payload() == chunk
                        &&& fs[i].bus_frame.meta.src_id == 0
                        &&& fs[i].bus_frame.meta.dest_id == dest_id
                    }
            },
    {
        let mut frame_vec: Vec<Frame> = Vec::new();
        let mut offset: usize = 0;
        while offset < data.len()
            invariant
                offset <= data@.len(),
                offset % MAX_UDP_COMMAND_LENGTH == 0 || offset == data@.len(),
                frame_vec@.len() == (offset + MAX_UDP_COMMAND_LENGTH - 1) as int
                    / MAX_UDP_COMMAND_LENGTH as int,
                forall|i: int|
                    0 <= i < frame_vec@.len() ==> {
                        let chunk = data@.subrange(
                            MAX_UDP_COMMAND_LENGTH * i,
                            if MAX_UDP_COMMAND_LENGTH * (i + 1) <= data@.len() {
                                MAX_UDP_COMMAND_LENGTH * (i + 1)
                            } else {
                                data@.len() as int
                            },
                        );
                        &&& (#[trigger] frame_vec@[i]).wf()
                        &&& frame_vec@[i].application_id == UDP_BACKUP_APPLICATION_ID
                        &&& frame_vec@[i].bus_frame.payload() == chunk
                        &&& frame_vec@[i].bus_frame.meta.src_id == 0
                        &&& frame_vec@[i].bus_frame.meta.dest_id == dest_id
                    },
            decreases data@.len() - offset,
        {
            let this_len = if data.len() - offset > MAX_UDP_COMMAND_LENGTH {
                MAX_UDP_COMMAND_LENGTH
            } else {
                data.len() - offset
            };
            let chunk = vstd::slice::slice_subrange(data.as_slice(), offset, offset + this_len);
            let mut frame = Frame::new_from_slice(UDP_BACKUP_APPLICATION_ID, chunk)?;
            let mut meta = FrameMeta::default();
            meta.src_id = 0;
            meta.dest_id = dest_id;
            meta.len = this_len as u16;
            frame.set_meta(&meta);
            frame_vec.push(frame);
            offset += this_len;
        }
        Ok(frame_vec)
    }
}

impl<F: Fallback> Application for UdpBackup<F> {
    open spec fn inv(&self) -> bool {
        true
    }

    /// UDP backup never answers on the bus; a payload longer than the fixed
    /// command length is an error.
    open spec fn handle_post(
        pre: Self,
        frame: Frame,
        mtu: u16,
        post: Self,
        r: Result<Option<Frame>, DeviceAdaptorError>,
    ) -> bool {
        &&& (frame.bus_frame.payload().len() > MAX_UDP_COMMAND_LENGTH ==> r is Err)
        &&& (r is Ok ==> r->Ok_0 is None)
    }

    open spec fn spec_application_id(&self) -> u8 {
        UDP_BACKUP_APPLICATION_ID
    }

    open spec fn spec_application_name(&self) -> Seq<char> {
        "UDP command over tcsp"@
    }

    fn application_id(&self) -> (r: u8) {
        UDP_BACKUP_APPLICATION_ID
    }

    fn application_name(&self) -> (r: &'static str) {
        "UDP command over tcsp"
    }

    /// Pad the payload to the fixed command length and forward it over the
    /// side channel; no response goes back to the bus.
    fn handle(&mut self, frame: &Frame, _mtu: u16) -> (r: Result<
        Option<Frame>,
        DeviceAdaptorError,
    >)
    {
        let data = frame.data();
        if data.len() > MAX_UDP_COMMAND_LENGTH {
            return Err(
                DeviceAdaptorError::FrameError(
                    "udp command longer than the command length".to_owned(),
                ),
            );
        }
        let mut command: Vec<u8> = vec![0u8; MAX_UDP_COMMAND_LENGTH];
        let mut i: usize = 0;
        while i < data.len()
            invariant
                i <= data@.len(),
                data@.len() <= MAX_UDP_COMMAND_LENGTH,
                command@.len() == MAX_UDP_COMMAND_LENGTH,
            decreases data@.len() - i,
        {
            command.set(i, data[i]);
            i += 1;
        }
        let _reply = self.fallback.fallback(command)?;
        Ok(None)
    }
}

} // verus!
