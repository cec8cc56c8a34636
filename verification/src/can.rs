//! The vendor CAN protocol: 29-bit identifier packing, reassembly slots, and
//! the frame codec that converts between raw CAN frames and bus frames.
pub mod codec;
pub mod id;
pub mod laws;
pub mod slot;

pub use codec::TyCanProtocol;
pub use id::TyCanId;
pub use slot::Slot;
