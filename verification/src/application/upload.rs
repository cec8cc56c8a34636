//! The file-upload application: a three-state machine that collects numbered
//! chunks into a buffer and, once all chunks have arrived, asks the host to
//! save the assembled file. Writing the file is outside the core: the
//! decision is recorded as a pending `SaveFile` action for the host to take.
use std::collections::HashMap;
use vstd::prelude::*;

use crate::envelope::Frame;
use crate::error::DeviceAdaptorError;
use crate::server::{Application, Fallback};

verus! {

broadcast use vstd::std_specs::hash::group_hash_axioms;

/// The application ID the upload handler claims.
pub const UPLOAD_APPLICATION_ID: u8 = 4;

/// Bytes reserved for file metadata in front of the path in the second
/// upload frame.
pub const UPLOAD_METADATA_RESERVE: usize = 256;

/// The upload state machine.
#[derive(Debug)]
pub enum UploadState {
    /// Waiting for the frame that announces a file mode.
    UploadStart,
    /// A file mode was announced; waiting for the frame that names the path.
    UploadWaiting(u8),
    /// Collecting numbered chunks for the named path.
    Uploading(u8, Vec<u8>),
}

/// The pending host action: save `chunks`, in order, under `path`.
#[derive(Debug)]
pub struct SaveFile {
    /// The file path, as the raw bytes from the wire.
    pub path: Vec<u8>,
    /// The file content, chunk by chunk in order.
    pub chunks: Vec<Vec<u8>>,
}

/// The upload application.
pub struct UploadCommand<F> {
    /// The side channel, kept for symmetry with the handler's peers.
    pub fallback: F,
    /// The state machine.
    pub state: UploadState,
    /// The chunks received so far, by chunk number.
    pub buffer: HashMap<u16, Vec<u8>>,
    /// The save the host still has to perform, if any.
    pub pending_save: Option<SaveFile>,
}

impl<F: Fallback> UploadCommand<F> {
    /// An upload handler; the side channel is kept for symmetry with its
    /// peers.
    pub fn new(fallback: F) -> (r: UploadCommand<F>)
        ensures
            r.state is UploadStart,
            r.buffer@ == Map::<u16, Vec<u8>>::empty(),
            r.pending_save is None,
    {
        UploadCommand {
            fallback,
            state: UploadState::UploadStart,
            buffer: HashMap::new(),
            pending_save: None,
        }
    }

    /// Build an upload request carrying `content`. Fails when `content` is
    /// longer than `mtu`.
    pub fn request(&self, mtu: u16, content: &[u8]) -> (r: Result<Frame, DeviceAdaptorError>)
        ensures
            content@.len() > mtu || content@.len() > crate::frame::FRAME_MAX_LENGTH ==> r is Err,
            content@.len() <= mtu && content@.len() <= crate::frame::FRAME_MAX_LENGTH ==> {
                &&& r is Ok
                &&& r->Ok_0.wf()
                &&& r->Ok_0.bus_frame.payload() == content@
                &&& r->Ok_0.application_id == UPLOAD_APPLICATION_ID
            },
    {
        if content.len() > mtu as usize {
            return Err(DeviceAdaptorError::FrameError("too long content".to_owned()));
        }
        Frame::new_from_slice(UPLOAD_APPLICATION_ID, content)
    }

    /// Hand the host the pending save, if any.
    pub fn take_pending_save(&mut self) -> (r: Option<SaveFile>)
        ensures
            r == old(self).pending_save,
            final(self).pending_save is None,
            final(self).state == old(self).state,
            final(self).buffer@ == old(self).buffer@,
    {
        let mut taken: Option<SaveFile> = None;
        core::mem::swap(&mut taken, &mut self.pending_save);
        taken
    }
}

impl<F: Fallback> Application for UploadCommand<F> {
    open spec fn inv(&self) -> bool {
        true
    }

    /// One step of the upload state machine, as `handle` describes it: the
    /// announcement, the path, and the numbered chunks, each acknowledged;
    /// collecting the last chunk leaves a pending save and starts over.
    open spec fn handle_post(
        pre: Self,
        frame: Frame,
        mtu: u16,
        post: Self,
        r: Result<Option<Frame>, DeviceAdaptorError>,
    ) -> bool {
        &&& (pre.state is UploadStart ==> {
            let p = frame.bus_frame.payload();
            &&& (r is Ok <==> p.len() >= 1)
            &&& (r is Ok ==> {
                &&& post.state == UploadState::UploadWaiting(p[0])
                &&& post.buffer@ == pre.buffer@
                &&& r->Ok_0 is Some
                &&& r->Ok_0->0.bus_frame.payload() == seq![p[0], 0xaau8]
            })
        })
        &&& (pre.state matches UploadState::UploadWaiting(mode) ==> {
            let p = frame.bus_frame.payload();
            &&& (r is Ok <==> (p.len() >= UPLOAD_METADATA_RESERVE && frame.bus_frame.meta.id
                == mode))
            &&& (r is Err ==> post.state == pre.state)
            &&& (r is Ok ==> {
                &&& post.state matches UploadState::Uploading(m2, path) && m2 == mode && path@
                    == p.skip(UPLOAD_METADATA_RESERVE as int)
                &&& post.buffer@ == pre.buffer@
                &&& r->Ok_0 is Some
                &&& r->Ok_0->0.bus_frame.payload() == seq![mode, 0xaau8]
            })
        })
        &&& (pre.state matches UploadState::Uploading(mode, path) ==> r is Ok ==> {
            let p = frame.bus_frame.payload();
            &&& p.len() >= 5
            &&& frame.bus_frame.meta.id == mode
            &&& r->Ok_0 is Some
            &&& r->Ok_0->0.bus_frame.payload() == seq![mode, p[1], p[2], 0xaau8]
            &&& (post.state is UploadStart || post.state == pre.state)
            &&& (post.state is UploadStart ==> post.pending_save is Some)
        })
    }

    open spec fn spec_application_id(&self) -> u8 {
        UPLOAD_APPLICATION_ID
    }

    open spec fn spec_application_name(&self) -> Seq<char> {
        "Upload files"@
    }

    fn application_id(&self) -> (r: u8) {
        UPLOAD_APPLICATION_ID
    }

    fn application_name(&self) -> (r: &'static str) {
        "Upload files"
    }

    /// Run one step of the upload state machine.
    ///
    /// From `UploadStart`, the first payload byte announces the file mode,
    /// acknowledged with `[mode, 0xAA]`. From `UploadWaiting`, the bytes
    /// after the metadata reserve name the path, acknowledged the same way;
    /// the frame's sub-ID must repeat the mode. From `Uploading`, each frame
    /// carries a big-endian chunk number at bytes 1..3 and a chunk count at
    /// bytes 3..5; its chunk is stored and acknowledged with
    /// `[mode, hi, lo, 0xAA]`; when as many chunks have been stored as the
    /// count names, they are handed to the host as a pending save of the
    /// path, and the machine starts over.
    #[verifier::loop_isolation(false)]
    fn handle(&mut self, frame: &Frame, _mtu: u16) -> (r: Result<
        Option<Frame>,
        DeviceAdaptorError,
    >)
    {
        let mut state = UploadState::UploadStart;
        core::mem::swap(&mut state, &mut self.state);
        match state {
            UploadState::UploadStart => {
                let data = frame.data();
                if data.len() < 1 {
                    return Err(DeviceAdaptorError::FrameError("empty upload frame".to_owned()));
                }
                let file_mode = data[0];
                let mut ack: Vec<u8> = Vec::new();
                ack.push(file_mode);
                ack.push(0xaa);
                let response = Frame::new_from_slice(UPLOAD_APPLICATION_ID, ack.as_slice())?;
                proof {
                    assert(response.bus_frame.payload() =~= seq![
                        frame.bus_frame.payload()[0],
                        0xaau8,
                    ]);
                }
                self.state = UploadState::UploadWaiting(file_mode);
                Ok(Some(response))
            },
            UploadState::UploadWaiting(file_mode) => {
                let data = frame.data();
                if data.len() < UPLOAD_METADATA_RESERVE {
                    self.state = UploadState::UploadWaiting(file_mode);
                    return Err(
                        DeviceAdaptorError::FrameError("upload metadata too short".to_owned()),
                    );
                }
                if frame.meta().id != file_mode {
                    self.state = UploadState::UploadWaiting(file_mode);
                    return Err(DeviceAdaptorError::FrameError("data type mismatch".to_owned()));
                }
                let path = vstd::slice::slice_to_vec(
                    vstd::slice::slice_subrange(data, UPLOAD_METADATA_RESERVE, data.len()),
                );
                let mut ack: Vec<u8> = Vec::new();
                ack.push(file_mode);
                ack.push(0xaa);
                let response = Frame::new_from_slice(UPLOAD_APPLICATION_ID, ack.as_slice())?;
                proof {
                    assert(response.bus_frame.payload() =~= seq![file_mode, 0xaau8]);
                }
                self.state = UploadState::Uploading(file_mode, path);
                Ok(Some(response))
            },
            UploadState::Uploading(file_mode, path) => {
                let data = frame.data();
                if data.len() < 5 {
                    self.state = UploadState::Uploading(file_mode, path);
                    return Err(DeviceAdaptorError::FrameError("upload chunk too short".to_owned()));
                }
                if frame.meta().id != file_mode {
                    self.state = UploadState::Uploading(file_mode, path);
                    return Err(DeviceAdaptorError::FrameError("data type mismatch".to_owned()));
                }
                let data_frame_id: u16 = data[1] as u16 * 256 + data[2] as u16;
                let data_frame_sum: u16 = data[3] as u16 * 256 + data[4] as u16;
                let chunk = vstd::slice::slice_to_vec(
                    vstd::slice::slice_subrange(data, 5, data.len()),
                );
                self.buffer.insert(data_frame_id, chunk);
                let mut ack: Vec<u8> = Vec::new();
                ack.push(file_mode);
                ack.push(data[1]);
                ack.push(data[2]);
                ack.push(0xaa);
                let response = Frame::new_from_slice(UPLOAD_APPLICATION_ID, ack.as_slice())?;
                proof {
                    assert(response.bus_frame.payload() =~= seq![
                        file_mode,
                        frame.bus_frame.payload()[1],
                        frame.bus_frame.payload()[2],
                        0xaau8,
                    ]);
                }
                if self.buffer.len() != data_frame_sum as usize {
                    self.state = UploadState::Uploading(file_mode, path);
                } else {
                    let mut chunks: Vec<Vec<u8>> = Vec::new();
                    let mut i: u16 = 0;
                    while i < data_frame_sum
                        invariant
                            i <= data_frame_sum,
                            chunks@.len() == i,
                        decreases data_frame_sum - i,
                    {
                        match self.buffer.get(&i) {
                            Some(c) => {
                                chunks.push(c.clone());
                            },
                            None => {
                                self.buffer.clear();
                                self.state = UploadState::UploadStart;
                                return Err(
                                    DeviceAdaptorError::FrameError("missing upload chunk".to_owned()),
                                );
                            },
                        }
                        i += 1;
                    }
                    self.pending_save = Some(SaveFile { path, chunks });
                    self.buffer.clear();
                    self.state = UploadState::UploadStart;
                }
                Ok(Some(response))
            },
        }
    }
}

} // verus!
