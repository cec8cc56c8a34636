//! The protocol envelope: a 2-byte `version, application` header in front of
//! the adaptor payload, with two flag-based exceptions where the application
//! ID is synthesised from bus-level flags instead of read from the wire.
use vstd::prelude::*;

use crate::error::DeviceAdaptorError;
use crate::frame::Frame as BusFrame;
use crate::frame::FrameMeta;

verus! {

/// The protocol version byte.
pub const VERSION_ID: u8 = 0x20;

/// The application ID synthesised for UART quick telemetry.
pub const TELEMETRY_APPLICATION_ID: u8 = 0;

/// The application ID synthesised for a CAN time broadcast.
pub const TIME_SYNC_APPLICATION_ID: u8 = 1;

/// Whether a time-broadcast frame still carries the `50 05` marker bytes in
/// front of its payload. The CAN adaptor consumes them itself, so the codec's
/// own skip is defence in depth for frames that arrive with them.
pub open spec fn spec_has_time_markers(b: BusFrame) -> bool {
    b.meta.len >= 2 && b.payload()[0] == 0x50 && b.payload()[1] == 0x05
}

/// Whether decoding the envelope of `b` succeeds: flag-marked frames need
/// only the room for their synthetic header, any other frame must begin with
/// the version byte.
pub open spec fn spec_decode_ok(b: BusFrame) -> bool {
    if b.meta.flag.uart_telemetry {
        2 <= b.offset < crate::frame::FRAME_DATA_LENGTH
    } else if b.meta.flag.can_time_broadcast {
        if spec_has_time_markers(b) {
            b.offset + 2 < crate::frame::FRAME_DATA_LENGTH
        } else {
            2 <= b.offset < crate::frame::FRAME_DATA_LENGTH
        }
    } else {
        b.meta.len >= 2 && b.payload()[0] == VERSION_ID && b.offset + 2
            < crate::frame::FRAME_DATA_LENGTH
    }
}

/// The application ID that decoding `b` yields.
pub open spec fn spec_application_of(b: BusFrame) -> u8 {
    if b.meta.flag.uart_telemetry {
        TELEMETRY_APPLICATION_ID
    } else if b.meta.flag.can_time_broadcast {
        TIME_SYNC_APPLICATION_ID
    } else {
        b.payload()[1]
    }
}

/// The payload that decoding `b` yields: flag-marked frames keep their bytes
/// (a time broadcast loses its markers when it still carries them), any other
/// frame loses the two header bytes.
pub open spec fn spec_decoded_payload(b: BusFrame) -> Seq<u8> {
    if b.meta.flag.uart_telemetry {
        b.payload()
    } else if b.meta.flag.can_time_broadcast {
        if spec_has_time_markers(b) {
            b.payload().skip(2)
        } else {
            b.payload()
        }
    } else {
        b.payload().skip(2)
    }
}

/// The metadata that decoding `b` yields: the length follows the payload.
pub open spec fn spec_decoded_meta(b: BusFrame) -> FrameMeta {
    FrameMeta { len: spec_decoded_payload(b).len() as u16, ..b.meta }
}

/// Prepend the envelope header `version, application` in place. Fails when
/// the head slack is smaller than the header.
pub fn insert_header(bus_frame: &mut BusFrame, application_id: u8) -> (r: Result<
    (),
    DeviceAdaptorError,
>)
    requires
        old(bus_frame).wf(),
    ensures
        final(bus_frame).wf(),
        r is Err <==> old(bus_frame).offset < 2,
        r is Err ==> *final(bus_frame) == *old(bus_frame) && r->Err_0 is FrameError,
        r is Ok ==> {
            &&& final(bus_frame).payload() == seq![VERSION_ID, application_id] + old(
                bus_frame,
            ).payload()
            &&& final(bus_frame).meta == (FrameMeta {
                len: (old(bus_frame).meta.len + 2) as u16,
                ..old(bus_frame).meta
            })
            &&& final(bus_frame).offset == old(bus_frame).offset - 2
            &&& final(bus_frame).data@.len() == old(bus_frame).data@.len()
        },
{
    bus_frame.expand_head(2)?;
    bus_frame.write_byte(0, VERSION_ID);
    bus_frame.write_byte(1, application_id);
    proof {
        assert(bus_frame.payload() =~= seq![VERSION_ID, application_id] + old(
            bus_frame,
        ).payload());
    }
    Ok(())
}

/// Give a frame that carries no envelope header one, from its bus-level
/// flags: UART quick telemetry identifies itself by flag and gets the
/// telemetry application; a CAN time broadcast first loses its `50 05`
/// marker bytes, when it still carries them, and gets the time-sync
/// application. Any other frame is left as it is.
pub fn install_header_if_needed(frame: &mut BusFrame) -> (r: Result<(), DeviceAdaptorError>)
    requires
        old(frame).wf(),
    ensures
        final(frame).wf(),
        r is Err ==> r->Err_0 is FrameError,
        old(frame).meta.flag.uart_telemetry ==> {
            &&& (r is Err <==> old(frame).offset < 2)
            &&& (r is Ok ==> {
                &&& final(frame).payload() == seq![VERSION_ID, TELEMETRY_APPLICATION_ID] + old(
                    frame,
                ).payload()
                &&& final(frame).meta == (FrameMeta {
                    len: (old(frame).meta.len + 2) as u16,
                    ..old(frame).meta
                })
                &&& final(frame).offset == old(frame).offset - 2
                &&& final(frame).data@.len() == old(frame).data@.len()
            })
        },
        !old(frame).meta.flag.uart_telemetry && old(frame).meta.flag.can_time_broadcast
            && spec_has_time_markers(*old(frame)) ==> {
            &&& (r is Err <==> old(frame).offset + 2 >= crate::frame::FRAME_DATA_LENGTH)
            &&& (r is Ok ==> {
                &&& final(frame).payload() == seq![VERSION_ID, TIME_SYNC_APPLICATION_ID] + old(
                    frame,
                ).payload().skip(2)
                &&& final(frame).meta == old(frame).meta
                &&& final(frame).offset == old(frame).offset
                &&& final(frame).data@.len() == old(frame).data@.len()
            })
        },
        !old(frame).meta.flag.uart_telemetry && old(frame).meta.flag.can_time_broadcast
            && !spec_has_time_markers(*old(frame)) ==> {
            &&& (r is Err <==> old(frame).offset < 2)
            &&& (r is Ok ==> {
                &&& final(frame).payload() == seq![VERSION_ID, TIME_SYNC_APPLICATION_ID] + old(
                    frame,
                ).payload()
                &&& final(frame).meta == (FrameMeta {
                    len: (old(frame).meta.len + 2) as u16,
                    ..old(frame).meta
                })
                &&& final(frame).offset == old(frame).offset - 2
                &&& final(frame).data@.len() == old(frame).data@.len()
            })
        },
        !old(frame).meta.flag.uart_telemetry && !old(frame).meta.flag.can_time_broadcast ==> r
            is Ok && *final(frame) == *old(frame),
{
    if frame.meta.flag.uart_telemetry {
        insert_header(frame, TELEMETRY_APPLICATION_ID)
    } else if frame.meta.flag.can_time_broadcast {
        let mut has_markers = false;
        if frame.len() >= 2 {
            let data = frame.data();
            has_markers = data[0] == 0x50 && data[1] == 0x05;
        }
        if has_markers {
            frame.shrink_head(2)?;
            insert_header(frame, TIME_SYNC_APPLICATION_ID)?;
            proof {
                assert(frame.meta == old(frame).meta);
            }
            Ok(())
        } else {
            insert_header(frame, TIME_SYNC_APPLICATION_ID)
        }
    } else {
        Ok(())
    }
}

/// A protocol frame: a bus frame whose envelope header has been decoded, the
/// application ID it is addressed to, and whether the header bytes currently
/// stand in the buffer.
#[derive(Debug)]
pub struct Frame {
    /// The underlying bus frame; its payload excludes the envelope header
    /// while `hdr_inserted` is false.
    pub bus_frame: BusFrame,
    /// The application the frame is addressed to.
    pub application_id: u8,
    /// Whether the envelope header stands in the buffer.
    pub hdr_inserted: bool,
}

impl Frame {
    /// Well-formedness of the underlying bus frame.
    pub open spec fn wf(&self) -> bool {
        self.bus_frame.wf()
    }

    /// A fresh, empty frame for `application_id`, without the header.
    pub fn new(application_id: u8) -> (r: Frame)
        ensures
            r.wf(),
            r.application_id == application_id,
            !r.hdr_inserted,
            r.bus_frame.meta == FrameMeta::spec_default(),
            r.bus_frame.payload() == Seq::<u8>::empty(),
            r.bus_frame.offset == crate::frame::FRAME_DEFAULT_START_OFFSET,
            r.bus_frame.data@ == Seq::<u8>::new(crate::frame::FRAME_DATA_LENGTH as nat, |i: int| 0u8),
            r.bus_frame.data@.len() == crate::frame::FRAME_DATA_LENGTH,
    {
        Frame { bus_frame: BusFrame::default(), application_id, hdr_inserted: false }
    }

    /// A fresh frame for `application_id` carrying a copy of `data`. Fails
    /// with `FrameError` when `data` is longer than the payload limit.
    pub fn new_from_slice(application_id: u8, data: &[u8]) -> (r: Result<
        Frame,
        DeviceAdaptorError,
    >)
        ensures
            r is Err <==> data@.len() > crate::frame::FRAME_MAX_LENGTH,
            r is Err ==> r->Err_0 is FrameError,
            r is Ok ==> {
                let f = r->Ok_0;
                &&& f.wf()
                &&& f.application_id == application_id
                &&& !f.hdr_inserted
                &&& f.bus_frame.payload() == data@
                &&& f.bus_frame.meta == (FrameMeta {
                    len: data@.len() as u16,
                    ..FrameMeta::spec_default()
                })
                &&& f.bus_frame.offset == crate::frame::FRAME_DEFAULT_START_OFFSET
                &&& f.bus_frame.data@.len() == crate::frame::FRAME_DATA_LENGTH
            },
    {
        let bus_frame = BusFrame::new(FrameMeta::default(), data)?;
        Ok(Frame { bus_frame, application_id, hdr_inserted: false })
    }

    /// Decode a bus frame: give flag-marked frames their synthetic header,
    /// then require the version byte and strip the header off, remembering
    /// the application ID it named. What comes out is fixed by
    /// `spec_decode_ok`, `spec_application_of`, `spec_decoded_payload` and
    /// `spec_decoded_meta`.
    pub fn from_bus(bus_frame: BusFrame) -> (r: Result<Frame, DeviceAdaptorError>)
        requires
            bus_frame.wf(),
        ensures
            r is Err ==> r->Err_0 is FrameError,
            r is Ok <==> spec_decode_ok(bus_frame),
            r is Ok ==> {
                let f = r->Ok_0;
                &&& f.wf()
                &&& !f.hdr_inserted
                &&& f.application_id == spec_application_of(bus_frame)
                &&& f.bus_frame.payload() == spec_decoded_payload(bus_frame)
                &&& f.bus_frame.meta == spec_decoded_meta(bus_frame)
                &&& f.bus_frame.offset == bus_frame.offset + bus_frame.meta.len
                    - spec_decoded_payload(bus_frame).len()
                &&& f.bus_frame.data@.len() == bus_frame.data@.len()
            },
    {
        let ghost orig = bus_frame;
        let mut bus_frame = bus_frame;
        let with_flags = bus_frame.meta.flag.uart_telemetry
            || bus_frame.meta.flag.can_time_broadcast;
        install_header_if_needed(&mut bus_frame)?;
        proof {
            if with_flags {
                let app = spec_application_of(orig);
                assert(bus_frame.payload() == seq![VERSION_ID, app] + spec_decoded_payload(orig));
                assert(bus_frame.payload()[0] == VERSION_ID);
                assert(bus_frame.payload()[1] == app);
            }
        }
        if bus_frame.len() < 2 {
            return Err(DeviceAdaptorError::FrameError("buffer too short".to_owned()));
        }
        let version = {
            let data = bus_frame.data();
            data[0]
        };
        if version != VERSION_ID {
            return Err(DeviceAdaptorError::FrameError("version id not match".to_owned()));
        }
        let application_id = {
            let data = bus_frame.data();
            data[1]
        };
        bus_frame.shrink_head(2)?;
        proof {
            assert(bus_frame.payload() =~= spec_decoded_payload(orig));
        }
        Ok(Frame { bus_frame, application_id, hdr_inserted: false })
    }

    /// Encode this frame for the adaptor: make sure the envelope header
    /// stands in the buffer, and hand the bus frame back.
    pub fn into_bus(self) -> (r: Result<BusFrame, DeviceAdaptorError>)
        requires
            self.wf(),
        ensures
            r is Err <==> (!self.hdr_inserted && self.bus_frame.offset < 2),
            r is Err ==> r->Err_0 is FrameError,
            r is Ok ==> r->Ok_0.wf(),
            r is Ok && self.hdr_inserted ==> r->Ok_0 == self.bus_frame,
            r is Ok && !self.hdr_inserted ==> {
                &&& r->Ok_0.payload() == seq![VERSION_ID, self.application_id]
                    + self.bus_frame.payload()
                &&& r->Ok_0.meta == (FrameMeta {
                    len: (self.bus_frame.meta.len + 2) as u16,
                    ..self.bus_frame.meta
                })
                &&& r->Ok_0.offset == self.bus_frame.offset - 2
                &&& r->Ok_0.data@.len() == self.bus_frame.data@.len()
            },
    {
        let mut this = self;
        this.insert_header()?;
        Ok(this.bus_frame)
    }

    /// The application this frame is addressed to.
    pub fn application(&self) -> (r: u8)
        ensures
            r == self.application_id,
    {
        self.application_id
    }

    /// The payload bytes (the envelope header excluded while it is not
    /// inserted).
    pub fn data(&self) -> (r: &[u8])
        requires
            self.wf(),
        ensures
            r@ == self.bus_frame.payload(),
    {
        self.bus_frame.data()
    }

    /// Overwrite the payload byte at `i`.
    pub fn write_byte(&mut self, i: usize, b: u8)
        requires
            old(self).wf(),
            i < old(self).bus_frame.meta.len,
        ensures
            final(self).wf(),
            final(self).application_id == old(self).application_id,
            final(self).hdr_inserted == old(self).hdr_inserted,
            final(self).bus_frame.meta == old(self).bus_frame.meta,
            final(self).bus_frame.offset == old(self).bus_frame.offset,
            final(self).bus_frame.data@.len() == old(self).bus_frame.data@.len(),
            final(self).bus_frame.payload() == old(self).bus_frame.payload().update(i as int, b),
    {
        self.bus_frame.write_byte(i, b);
    }

    /// Overwrite the payload bytes `[start, start + src.len())` with `src`.
    pub fn write_range(&mut self, start: usize, src: &[u8])
        requires
            old(self).wf(),
            start + src@.len() <= old(self).bus_frame.meta.len,
        ensures
            final(self).wf(),
            final(self).application_id == old(self).application_id,
            final(self).hdr_inserted == old(self).hdr_inserted,
            final(self).bus_frame.meta == old(self).bus_frame.meta,
            final(self).bus_frame.offset == old(self).bus_frame.offset,
            final(self).bus_frame.data@.len() == old(self).bus_frame.data@.len(),
            final(self).bus_frame.payload() == old(self).bus_frame.payload().take(start as int)
                + src@ + old(self).bus_frame.payload().skip(start + src@.len()),
    {
        self.bus_frame.write_range(start, src);
    }

    /// Insert the envelope header into the buffer, once. Fails when the head
    /// slack is smaller than the header.
    pub fn insert_header(&mut self) -> (r: Result<(), DeviceAdaptorError>)
        requires
            old(self).wf(),
        ensures
            final(self).wf(),
            final(self).application_id == old(self).application_id,
            r is Err <==> (!old(self).hdr_inserted && old(self).bus_frame.offset < 2),
            r is Err ==> r->Err_0 is FrameError && *final(self) == *old(self),
            r is Ok && old(self).hdr_inserted ==> *final(self) == *old(self),
            r is Ok && !old(self).hdr_inserted ==> {
                &&& final(self).hdr_inserted
                &&& final(self).bus_frame.payload() == seq![
                    VERSION_ID,
                    old(self).application_id,
                ] + old(self).bus_frame.payload()
                &&& final(self).bus_frame.meta == (FrameMeta {
                    len: (old(self).bus_frame.meta.len + 2) as u16,
                    ..old(self).bus_frame.meta
                })
                &&& final(self).bus_frame.offset == old(self).bus_frame.offset - 2
                &&& final(self).bus_frame.data@.len() == old(self).bus_frame.data@.len()
            },
    {
        if !self.hdr_inserted {
            insert_header(&mut self.bus_frame, self.application_id)?;
            self.hdr_inserted = true;
        }
        Ok(())
    }

    /// Set the visible payload length; as `Frame::set_len` on the bus frame.
    pub fn set_len(&mut self, len: u16) -> (r: Result<(), DeviceAdaptorError>)
        requires
            old(self).wf(),
        ensures
            final(self).wf(),
            final(self).application_id == old(self).application_id,
            final(self).hdr_inserted == old(self).hdr_inserted,
            r is Err <==> (len > crate::frame::FRAME_DATA_LENGTH || old(self).bus_frame.offset
                + len > old(self).bus_frame.data@.len()),
            r is Err ==> r->Err_0 is FrameError,
            r is Ok ==> {
                &&& final(self).bus_frame.meta == (FrameMeta {
                    len,
                    ..old(self).bus_frame.meta
                })
                &&& final(self).bus_frame.offset == old(self).bus_frame.offset
                &&& final(self).bus_frame.data@ == old(self).bus_frame.data@
            },
    {
        self.bus_frame.set_len(len)
    }

    /// The frame's metadata.
    pub fn meta(&self) -> (r: &FrameMeta)
        ensures
            r == self.bus_frame.meta,
    {
        &self.bus_frame.meta
    }

    /// Replace the frame's metadata.
    pub fn set_meta(&mut self, meta: &FrameMeta)
        requires
            old(self).wf(),
        ensures
            final(self).bus_frame.meta == *meta,
            final(self).bus_frame.offset == old(self).bus_frame.offset,
            final(self).bus_frame.data@ == old(self).bus_frame.data@,
            final(self).application_id == old(self).application_id,
            final(self).hdr_inserted == old(self).hdr_inserted,
    {
        self.bus_frame.meta = *meta;
    }

    /// Take a request's metadata over into this response: source and
    /// destination exchanged, the sub-ID, types and flags copied, and this
    /// frame's own length kept.
    pub fn set_meta_from_request(&mut self, req: &FrameMeta)
        requires
            old(self).wf(),
        ensures
            final(self).wf(),
            final(self).bus_frame.meta == (FrameMeta {
                src_id: req.dest_id,
                dest_id: req.src_id,
                len: old(self).bus_frame.meta.len,
                ..*req
            }),
            final(self).bus_frame.offset == old(self).bus_frame.offset,
            final(self).bus_frame.data@ == old(self).bus_frame.data@,
            final(self).application_id == old(self).application_id,
            final(self).hdr_inserted == old(self).hdr_inserted,
    {
        let len = self.bus_frame.meta.len;
        self.bus_frame.meta = FrameMeta {
            src_id: req.dest_id,
            dest_id: req.src_id,
            id: req.id,
            len,
            data_type: req.data_type,
            command_type: req.command_type,
            flag: req.flag,
        };
    }
}

} // verus!
