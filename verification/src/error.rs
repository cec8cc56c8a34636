//! The closed error taxonomy of the adaptor and protocol layers.
use vstd::prelude::*;

verus! {

/// Errors surfaced by adaptors and by the protocol codecs.
///
/// `FrameError` marks a protocol violation in a frame (the frame is dropped),
/// `BusError` an underlying transport failure (the text describes the cause),
/// and `Empty` the absence of a frame at this poll.
#[derive(Debug)]
pub enum DeviceAdaptorError {
    FrameError(String),
    BusError(String),
    Empty,
}

impl DeviceAdaptorError {
    /// True for protocol violations.
    pub fn is_frame_error(&self) -> (r: bool)
        ensures
            r == (self is FrameError),
    {
        match self {
            DeviceAdaptorError::FrameError(_) => true,
            _ => false,
        }
    }

    /// True for transport failures.
    pub fn is_bus_error(&self) -> (r: bool)
        ensures
            r == (self is BusError),
    {
        match self {
            DeviceAdaptorError::BusError(_) => true,
            _ => false,
        }
    }

    /// True when no frame was available.
    pub fn is_empty(&self) -> (r: bool)
        ensures
            r == (self is Empty),
    {
        match self {
            DeviceAdaptorError::Empty => true,
            _ => false,
        }
    }

    /// A short description of the error.
    pub fn description(&self) -> (r: String)
        ensures
            self is FrameError ==> r@ == self->FrameError_0@,
            self is BusError ==> r@ == self->BusError_0@,
    {
        match self {
            DeviceAdaptorError::FrameError(m) => m.clone(),
            DeviceAdaptorError::BusError(m) => m.clone(),
            DeviceAdaptorError::Empty => "no data available now".to_owned(),
        }
    }
}

} // verus!
