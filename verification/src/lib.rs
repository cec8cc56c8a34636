//! A verified core for a small telemetry/telecommand server that multiplexes
//! request/response applications over a CAN bus and a UART link.
pub mod application;
pub mod can;
pub mod channel;
pub mod envelope;
pub mod error;
pub mod frame;
pub mod server;
pub mod uart;

pub use channel::Channel;
pub use error::DeviceAdaptorError;
pub use frame::{Frame, FrameFlag, FrameMeta};
pub use server::{Application, DeviceAdaptor, Fallback, TcspServer, TcspServerBuilder};
