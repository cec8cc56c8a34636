//! Bit packing of the 29-bit extended CAN identifier.
//!
//! | bits  | field                                |
//! |-------|--------------------------------------|
//! | 0-7   | packet ID (pid)                      |
//! | 8     | `is_csp` flag (must be 0)            |
//! | 9-12  | frame type                           |
//! | 13-20 | destination ID                       |
//! | 21-28 | source ID                            |
use vstd::prelude::*;

verus! {

/// Mask that selects the destination-ID bits of an identifier.
pub const TY_CAN_ID_FILTER_MASK: u32 = 0x1fe000;

/// Bit offset of the destination ID within an identifier.
pub const TY_CAN_ID_OFFSET: u32 = 13;

/// The packet ID carried in bits 0-7.
pub open spec fn spec_pid_of(raw: u32) -> u8 {
    (raw & 0xff) as u8
}

/// The `is_csp` flag carried in bit 8.
pub open spec fn spec_is_csp_of(raw: u32) -> bool {
    raw & 0x100 != 0
}

/// The frame type carried in bits 9-12.
pub open spec fn spec_frame_type_of(raw: u32) -> u8 {
    ((raw >> 9) & 0xf) as u8
}

/// The destination ID carried in bits 13-20.
pub open spec fn spec_dest_of(raw: u32) -> u8 {
    ((raw >> 13) & 0xff) as u8
}

/// The source ID carried in bits 21-28.
pub open spec fn spec_src_of(raw: u32) -> u8 {
    ((raw >> 21) & 0xff) as u8
}

/// A 29-bit extended CAN identifier, with the vendor's field layout.
#[derive(Debug, Clone, Copy, PartialEq, Eq, Structural)]
pub struct TyCanId {
    /// The raw 29-bit identifier.
    pub raw: u32,
}

impl TyCanId {
    /// Pack the five fields into an identifier.
    pub fn new(pid: u8, is_csp: bool, frame_type: u8, dest_id: u8, src_id: u8) -> (r: TyCanId)
        requires
            frame_type < 16,
        ensures
            spec_pid_of(r.raw) == pid,
            spec_is_csp_of(r.raw) == is_csp,
            spec_frame_type_of(r.raw) == frame_type,
            spec_dest_of(r.raw) == dest_id,
            spec_src_of(r.raw) == src_id,
            r.raw < 0x20000000,
    {
        let csp_bit: u32 = if is_csp {
            0x100
        } else {
            0
        };
        let raw = (pid as u32) | csp_bit | ((frame_type as u32) << 9) | ((dest_id as u32) << 13) | (
        (src_id as u32) << 21);
        proof {
            let p = pid;
            let t = frame_type;
            let d = dest_id;
            let s = src_id;
            let c = csp_bit;
            assert(c == 0 || c == 0x100 ==> (((p as u32) | c | ((t as u32) << 9) | ((d as u32) << 13) | ((s as u32) << 21)) & 0xff) as u8 == p) by (bit_vector);
            assert(c == 0 || c == 0x100 ==> (((p as u32) | c | ((t as u32) << 9) | ((d as u32) << 13) | ((s as u32) << 21)) & 0x100 != 0) == (c == 0x100)) by (bit_vector);
            assert(c == 0 || c == 0x100 ==> t < 16 ==> ((((p as u32) | c | ((t as u32) << 9) | ((d as u32) << 13) | ((s as u32) << 21)) >> 9) & 0xf) as u8 == t) by (bit_vector);
            assert(c == 0 || c == 0x100 ==> t < 16 ==> ((((p as u32) | c | ((t as u32) << 9) | ((d as u32) << 13) | ((s as u32) << 21)) >> 13) & 0xff) as u8 == d) by (bit_vector);
            assert(c == 0 || c == 0x100 ==> ((((p as u32) | c | ((t as u32) << 9) | ((d as u32) << 13) | ((s as u32) << 21)) >> 21) & 0xff) as u8 == s) by (bit_vector);
            assert(c == 0 || c == 0x100 ==> t < 16 ==> ((p as u32) | c | ((t as u32) << 9) | ((d as u32) << 13) | ((s as u32) << 21)) < 0x20000000) by (bit_vector);
        }
        TyCanId { raw }
    }

    /// The packet ID.
    pub fn get_pid(&self) -> (r: u8)
        ensures
            r == spec_pid_of(self.raw),
    {
        (self.raw & 0xff) as u8
    }

    /// The `is_csp` flag.
    pub fn get_is_csp(&self) -> (r: bool)
        ensures
            r == spec_is_csp_of(self.raw),
    {
        self.raw & 0x100 != 0
    }

    /// The frame type.
    pub fn get_frame_type(&self) -> (r: u8)
        ensures
            r == spec_frame_type_of(self.raw),
    {
        ((self.raw >> 9) & 0xf) as u8
    }

    /// The destination ID.
    pub fn get_dest_id(&self) -> (r: u8)
        ensures
            r == spec_dest_of(self.raw),
    {
        ((self.raw >> 13) & 0xff) as u8
    }

    /// The source ID.
    pub fn get_src_id(&self) -> (r: u8)
        ensures
            r == spec_src_of(self.raw),
    {
        ((self.raw >> 21) & 0xff) as u8
    }
}

/// The frame types of the vendor CAN protocol. Wire values outside the known
/// set decode to `Unknown` and are dropped, not rejected.
#[derive(Debug, Clone, Copy, PartialEq, Eq, Structural)]
pub enum TyCanFrameType {
    /// Trigger a CAN interface restart.
    Reset,
    /// Self-contained payload.
    Single,
    /// First fragment of a multi-frame payload; carries the total length.
    MultiFirst,
    /// Continuation fragment.
    MultiMiddle,
    /// 8-byte time broadcast.
    TimeBroadcast,
    /// Anything else; ignored.
    Unknown,
}

impl TyCanFrameType {
    /// The wire code of each frame type.
    pub open spec fn spec_code(self) -> u8 {
        match self {
            TyCanFrameType::Reset => 0x0,
            TyCanFrameType::Single => 0x1,
            TyCanFrameType::MultiFirst => 0x2,
            TyCanFrameType::MultiMiddle => 0x3,
            TyCanFrameType::TimeBroadcast => 0x4,
            TyCanFrameType::Unknown => 0xf,
        }
    }

    /// The frame type a wire code denotes.
    pub open spec fn spec_from_code(code: u8) -> TyCanFrameType {
        if code == 0x0 {
            TyCanFrameType::Reset
        } else if code == 0x1 {
            TyCanFrameType::Single
        } else if code == 0x2 {
            TyCanFrameType::MultiFirst
        } else if code == 0x3 {
            TyCanFrameType::MultiMiddle
        } else if code == 0x4 {
            TyCanFrameType::TimeBroadcast
        } else {
            TyCanFrameType::Unknown
        }
    }

    /// The wire code of this frame type.
    pub fn code(self) -> (r: u8)
        ensures
            r == self.spec_code(),
            r < 16,
    {
        match self {
            TyCanFrameType::Reset => 0x0,
            TyCanFrameType::Single => 0x1,
            TyCanFrameType::MultiFirst => 0x2,
            TyCanFrameType::MultiMiddle => 0x3,
            TyCanFrameType::TimeBroadcast => 0x4,
            TyCanFrameType::Unknown => 0xf,
        }
    }

    /// Decode a wire code; unknown codes give `Unknown`.
    pub fn from_code(code: u8) -> (r: TyCanFrameType)
        ensures
            r == TyCanFrameType::spec_from_code(code),
    {
        if code == 0x0 {
            TyCanFrameType::Reset
        } else if code == 0x1 {
            TyCanFrameType::Single
        } else if code == 0x2 {
            TyCanFrameType::MultiFirst
        } else if code == 0x3 {
            TyCanFrameType::MultiMiddle
        } else if code == 0x4 {
            TyCanFrameType::TimeBroadcast
        } else {
            TyCanFrameType::Unknown
        }
    }
}

} // verus!
