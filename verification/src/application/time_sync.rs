//! The time-sync application: it takes the four big-endian timestamp bytes
//! of a time broadcast and forwards them over the fallback side channel.
use vstd::prelude::*;

use crate::envelope::Frame;
use crate::error::DeviceAdaptorError;
use crate::server::{Application, Fallback};

verus! {

/// The application ID the time-sync handler claims.
pub const TIME_SYNC_APPLICATION_ID: u8 = 1;

/// The big-endian bytes of a 32-bit timestamp.
pub open spec fn spec_u32_be(x: u32) -> Seq<u8> {
    seq![
        (x / 0x1000000) as u8,
        ((x / 0x10000) % 256) as u8,
        ((x / 256) % 256) as u8,
        (x % 256) as u8,
    ]
}

/// The time-sync application, over a fallback side channel.
pub struct TimeSync<F> {
    fallback: F,
}

impl<F> TimeSync<F> {
    /// Build a time-sync request carrying the timestamp, big-endian.
    pub fn request(timestamp: u32) -> (r: Result<Frame, DeviceAdaptorError>)
        ensures
            r is Ok,
            r is Ok ==> {
                &&& r->Ok_0.wf()
                &&& r->Ok_0.application_id == TIME_SYNC_APPLICATION_ID
                &&& r->Ok_0.bus_frame.payload() == spec_u32_be(timestamp)
            },
    {
        let mut bytes: Vec<u8> = Vec::new();
        bytes.push((timestamp / 0x1000000) as u8);
        bytes.push(((timestamp / 0x10000) % 256) as u8);
        bytes.push(((timestamp / 256) % 256) as u8);
        bytes.push((timestamp % 256) as u8);
        let frame = Frame::new_from_slice(TIME_SYNC_APPLICATION_ID, bytes.as_slice())?;
        proof {
            assert(frame.bus_frame.payload() =~= spec_u32_be(timestamp));
        }
        Ok(frame)
    }
}

impl<F: Fallback> TimeSync<F> {
    /// A time-sync handler over the given side channel.
    pub fn new(fallback: F) -> (r: TimeSync<F>) {
        TimeSync { fallback }
    }
}

impl<F: Fallback> Application for TimeSync<F> {
    open spec fn inv(&self) -> bool {
        true
    }

    /// Time sync never answers on the bus; a request without the four
    /// timestamp bytes is an error.
    open spec fn handle_post(
        pre: Self,
        frame: Frame,
        mtu: u16,
        post: Self,
        r: Result<Option<Frame>, DeviceAdaptorError>,
    ) -> bool {
        &&& (frame.bus_frame.payload().len() < 4 ==> r is Err)
        &&& (r is Ok ==> r->Ok_0 is None)
    }

    open spec fn spec_application_id(&self) -> u8 {
        TIME_SYNC_APPLICATION_ID
    }

    open spec fn spec_application_name(&self) -> Seq<char> {
        "TimeSync"@
    }

    fn application_id(&self) -> (r: u8) {
        TIME_SYNC_APPLICATION_ID
    }

    fn application_name(&self) -> (r: &'static str) {
        "TimeSync"
    }

    /// Forward the four timestamp bytes over the side channel; the reply is
    /// ignored and no response goes back to the bus.
    fn handle(&mut self, frame: &Frame, _mtu: u16) -> (r: Result<
        Option<Frame>,
        DeviceAdaptorError,
    >)
    {
        let data = frame.data();
        if data.len() < 4 {
            return Err(
                DeviceAdaptorError::FrameError(
                    "can not convert time slice to four bytes".to_owned(),
                ),
            );
        }
        let mut msg: Vec<u8> = Vec::new();
        msg.push(data[0]);
        msg.push(data[1]);
        msg.push(data[2]);
        msg.push(data[3]);
        msg.push(0);
        msg.push(0);
        let _reply = self.fallback.fallback(msg)?;
        Ok(None)
    }
}

} // verus!
