//! The file-download application: a two-state machine that serves a file,
//! chunk by numbered chunk. Reading the file is outside the core: the first
//! request is answered only after the host hands the file content in.
use std::collections::HashMap;
use vstd::prelude::*;

use crate::envelope::Frame;
use crate::error::DeviceAdaptorError;
use crate::frame::FrameMeta;
use crate::server::{Application, Fallback};

verus! {

broadcast use vstd::std_specs::hash::group_hash_axioms;

/// The application ID the download handler claims.
pub const DOWNLOAD_APPLICATION_ID: u8 = 7;

/// The size of one download chunk.
pub const DOWNLOAD_CHUNK_SIZE: usize = 1024;

/// The download state machine.
#[derive(Debug)]
pub enum DownloadState {
    /// Waiting for the frame that names a path.
    DownloadStart,
    /// A path was named; waiting for the host to hand the file content in.
    AwaitingFile(u8, FrameMeta),
    /// Serving numbered chunks: the file mode and the chunk count.
    Downloading(u8, u16),
}

/// The download application.
pub struct DownloadCommand<F> {
    /// The side channel, kept for symmetry with the handler's peers.
    pub fallback: F,
    /// The state machine.
    pub state: DownloadState,
    /// The file content, chunk by chunk.
    pub buffer: HashMap<u16, Vec<u8>>,
    /// The path the host still has to read, if any.
    pub pending_read: Option<Vec<u8>>,
}

impl<F: Fallback> DownloadCommand<F> {
    /// A download handler; the side channel is kept for symmetry with its
    /// peers.
    pub fn new(fallback: F) -> (r: DownloadCommand<F>)
        ensures
            r.state is DownloadStart,
            r.buffer@ == Map::<u16, Vec<u8>>::empty(),
            r.pending_read is None,
    {
        DownloadCommand {
            fallback,
            state: DownloadState::DownloadStart,
            buffer: HashMap::new(),
            pending_read: None,
        }
    }

    /// The path the host has to read, if a download was requested.
    pub fn take_pending_read(&mut self) -> (r: Option<Vec<u8>>)
        ensures
            r == old(self).pending_read,
            final(self).pending_read is None,
            final(self).state == old(self).state,
            final(self).buffer@ == old(self).buffer@,
    {
        let mut taken: Option<Vec<u8>> = None;
        core::mem::swap(&mut taken, &mut self.pending_read);
        taken
    }

    /// The host hands the requested file content in: it is cut into chunks,
    /// and the first chunk goes back as the response that announces the
    /// chunk count. Fails when no download was requested or the file is
    /// empty.
    pub fn provide_file(&mut self, content: &[u8]) -> (r: Result<
        Option<Frame>,
        DeviceAdaptorError,
    >)
        ensures
            !(old(self).state matches DownloadState::AwaitingFile(m, q)) ==> r is Err,
            r is Ok ==> r->Ok_0 is Some && r->Ok_0->0.wf(),
            r is Ok ==> final(self).state matches DownloadState::Downloading(m, s),
    {
        let (file_mode, req_meta) = match &self.state {
            DownloadState::AwaitingFile(m, q) => (*m, *q),
            _ => {
                return Err(
                    DeviceAdaptorError::FrameError("no download was requested".to_owned()),
                );
            },
        };
        if content.len() == 0 {
            return Err(DeviceAdaptorError::FrameError("empty file".to_owned()));
        }
        if content.len() > DOWNLOAD_CHUNK_SIZE * 0xffff {
            return Err(DeviceAdaptorError::FrameError("file too large".to_owned()));
        }
        self.buffer.clear();
        let mut index: u16 = 0;
        let mut offset: usize = 0;
        while offset < content.len()
            invariant
                offset <= content@.len(),
                content@.len() <= DOWNLOAD_CHUNK_SIZE * 0xffff,
                content@.len() > 0,
                offset < content@.len() ==> offset == DOWNLOAD_CHUNK_SIZE * index,
                offset == content@.len() ==> index >= 1,
                index <= 0xffff,
            decreases content@.len() - offset,
        {
            let this_len = if content.len() - offset > DOWNLOAD_CHUNK_SIZE {
                DOWNLOAD_CHUNK_SIZE
            } else {
                content.len() - offset
            };
            let chunk = vstd::slice::slice_to_vec(
                vstd::slice::slice_subrange(content, offset, offset + this_len),
            );
            self.buffer.insert(index, chunk);
            offset += this_len;
            index += 1;
        }
        let chunk_sum: u16 = index;
        let first_chunk = match self.buffer.get(&0u16) {
            Some(c) => c.clone(),
            None => {
                return Err(DeviceAdaptorError::FrameError("first chunk not found".to_owned()));
            },
        };
        let mut response_data: Vec<u8> = Vec::new();
        response_data.push(file_mode);
        response_data.push(0x00);
        response_data.push(0x00);
        response_data.push((chunk_sum / 256) as u8);
        response_data.push((chunk_sum % 256) as u8);
        response_data.push(0xaa);
        let mut i: usize = 0;
        while i < first_chunk.len()
            invariant
                i <= first_chunk@.len(),
                response_data@.len() == 6 + i,
            decreases first_chunk@.len() - i,
        {
            response_data.push(first_chunk[i]);
            i += 1;
        }
        let mut response = Frame::new_from_slice(DOWNLOAD_APPLICATION_ID, response_data.as_slice())?;
        response.set_meta_from_request(&req_meta);
        self.state = DownloadState::Downloading(file_mode, chunk_sum);
        Ok(Some(response))
    }
}

impl<F: Fallback> Application for DownloadCommand<F> {
    open spec fn inv(&self) -> bool {
        true
    }

    /// One step of the download state machine, as `handle` describes it: a
    /// path request leaves a pending read for the host and no response yet;
    /// a chunk request is served; serving the last chunk starts over.
    open spec fn handle_post(
        pre: Self,
        frame: Frame,
        mtu: u16,
        post: Self,
        r: Result<Option<Frame>, DeviceAdaptorError>,
    ) -> bool {
        &&& (pre.state is DownloadStart ==> {
            &&& (r is Ok <==> frame.bus_frame.payload().len() > 0)
            &&& (r is Ok ==> {
                &&& r->Ok_0 is None
                &&& post.pending_save_path() == Some(frame.bus_frame.payload())
                &&& post.state == DownloadState::AwaitingFile(
                    frame.bus_frame.meta.id,
                    frame.bus_frame.meta,
                )
            })
        })
        &&& (pre.state matches DownloadState::Downloading(mode, sum) ==> r is Ok ==> {
            let p = frame.bus_frame.payload();
            &&& p.len() >= 3
            &&& frame.bus_frame.meta.id == mode
            &&& r->Ok_0 is Some
            &&& r->Ok_0->0.wf()
            &&& (post.state is DownloadStart || post.state == pre.state)
        })
    }

    open spec fn spec_application_id(&self) -> u8 {
        DOWNLOAD_APPLICATION_ID
    }

    open spec fn spec_application_name(&self) -> Seq<char> {
        "Download files"@
    }

    fn application_id(&self) -> (r: u8) {
        DOWNLOAD_APPLICATION_ID
    }

    fn application_name(&self) -> (r: &'static str) {
        "Download files"
    }

    /// Run one step of the download state machine.
    ///
    /// From `DownloadStart`, the payload names the path and the sub-ID the
    /// file mode: the path becomes a pending read for the host, and no
    /// response leaves until the host calls `provide_file`. From
    /// `Downloading`, bytes 1..3 of the payload name a chunk, big-endian,
    /// which is served as `[mode, hi, lo, sum_hi, sum_lo, 0xAA, chunk...]`;
    /// serving the last chunk starts the machine over.
    #[verifier::loop_isolation(false)]
    fn handle(&mut self, frame: &Frame, _mtu: u16) -> (r: Result<
        Option<Frame>,
        DeviceAdaptorError,
    >)
    {
        match &self.state {
            DownloadState::DownloadStart => {
                let data = frame.data();
                if data.len() == 0 {
                    return Err(DeviceAdaptorError::FrameError("empty download frame".to_owned()));
                }
                let file_mode = frame.meta().id;
                self.pending_read = Some(vstd::slice::slice_to_vec(data));
                self.state = DownloadState::AwaitingFile(file_mode, *frame.meta());
                proof {
                    assert(self.pending_read->0@ =~= frame.bus_frame.payload());
                }
                Ok(None)
            },
            DownloadState::AwaitingFile(_, _) => {
                Err(DeviceAdaptorError::FrameError("download file not read yet".to_owned()))
            },
            DownloadState::Downloading(file_mode, chunk_sum) => {
                let file_mode = *file_mode;
                let chunk_sum = *chunk_sum;
                let data = frame.data();
                if data.len() < 3 {
                    return Err(
                        DeviceAdaptorError::FrameError("download request too short".to_owned()),
                    );
                }
                if frame.meta().id != file_mode {
                    return Err(DeviceAdaptorError::FrameError("data type mismatch".to_owned()));
                }
                let data_frame_id: u16 = data[1] as u16 * 256 + data[2] as u16;
                let chunk = match self.buffer.get(&data_frame_id) {
                    Some(c) => c.clone(),
                    None => {
                        return Err(DeviceAdaptorError::FrameError("invalid frame id".to_owned()));
                    },
                };
                let mut response_data: Vec<u8> = Vec::new();
                response_data.push(file_mode);
                response_data.push(data[1]);
                response_data.push(data[2]);
                response_data.push((chunk_sum / 256) as u8);
                response_data.push((chunk_sum % 256) as u8);
                response_data.push(0xaa);
                let mut i: usize = 0;
                while i < chunk.len()
                    invariant
                        i <= chunk@.len(),
                        response_data@.len() == 6 + i,
                    decreases chunk@.len() - i,
                {
                    response_data.push(chunk[i]);
                    i += 1;
                }
                let mut response = Frame::new_from_slice(
                    DOWNLOAD_APPLICATION_ID,
                    response_data.as_slice(),
                )?;
                response.set_meta_from_request(frame.meta());
                if chunk_sum >= 1 && data_frame_id == chunk_sum - 1 {
                    self.state = DownloadState::DownloadStart;
                }
                Ok(Some(response))
            },
        }
    }
}

impl<F> DownloadCommand<F> {
    /// The bytes of the pending read, if any.
    pub open spec fn pending_save_path(&self) -> Option<Seq<u8>> {
        match self.pending_read {
            Some(p) => Some(p@),
            None => None,
        }
    }
}

} // verus!
