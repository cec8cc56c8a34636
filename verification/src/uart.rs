//! The vendor UART framing: a fixed sentinel, a big-endian length, typed
//! command bytes, and a trailing CRC-8.
//!
//! Wire layout of one frame:
//! `EB 90 | platform_id (1B) | data_len (2B BE) | data_type (1B) |
//! command_type (1B) | req_id (1B) | payload (data_len - 3 B) | checksum (1B)`
//!
//! The CRC-8 uses polynomial 0x80, initial value 0xFF, no reflection and no
//! final xor, and covers the bytes from `data_type` through the byte before
//! the checksum. The default read path accepts a frame without verifying the
//! CRC (a deliberate concession to observed hardware); `uart_decode_checked`
//! is the variant that verifies it.
use vstd::prelude::*;

use crate::error::DeviceAdaptorError;
use crate::frame::{Frame, FrameFlag, FrameMeta};

verus! {

/// `data_type` of a telemetry frame.
pub const UART_DATA_TYPE_TELEMETRY: u8 = 0x05;

/// `data_type` of a telecommand frame.
pub const UART_DATA_TYPE_TELECOMMAND: u8 = 0x35;

/// MTU with the quick-telemetry flag set.
pub const UART_MTU_TELEMETRY: usize = 150;

/// MTU otherwise.
pub const UART_MTU_DEFAULT: usize = 128;

/// One step of the CRC-8 shift register: shift left once and fold the
/// polynomial 0x80 back in when a bit falls out.
pub open spec fn crc8_shift(v: u8) -> u8 {
    if v >= 0x80 {
        (((v as int * 2) % 256) as u8) ^ 0x80
    } else {
        ((v as int * 2) % 256) as u8
    }
}

/// `n` steps of the CRC-8 shift register.
pub open spec fn crc8_shift_n(v: u8, n: nat) -> u8
    decreases n,
{
    if n == 0 {
        v
    } else {
        crc8_shift(crc8_shift_n(v, (n - 1) as nat))
    }
}

/// Feed one byte into the CRC-8.
pub open spec fn crc8_feed(crc: u8, b: u8) -> u8 {
    crc8_shift_n(crc ^ b, 8)
}

/// The CRC-8 of a byte sequence: polynomial 0x80, initial value 0xFF,
/// no reflection, no final xor.
pub open spec fn spec_crc8(s: Seq<u8>) -> u8
    decreases s.len(),
{
    if s.len() == 0 {
        0xffu8
    } else {
        crc8_feed(spec_crc8(s.drop_last()), s.last())
    }
}

/// The CRC-8 of `data`.
pub fn crc8(data: &[u8]) -> (r: u8)
    ensures
        r == spec_crc8(data@),
{
    let mut crc: u8 = 0xff;
    let mut i: usize = 0;
    while i < data.len()
        invariant
            i <= data@.len(),
            crc == spec_crc8(data@.subrange(0, i as int)),
        decreases data@.len() - i,
    {
        let fed: u8 = crc ^ data[i];
        let mut v: u8 = fed;
        let mut k: usize = 0;
        while k < 8
            invariant
                k <= 8,
                v == crc8_shift_n(fed, k as nat),
            decreases 8 - k,
        {
            if v >= 0x80 {
                v = (((v as u16 * 2) % 256) as u8) ^ 0x80;
            } else {
                v = ((v as u16 * 2) % 256) as u8;
            }
            k += 1;
        }
        proof {
            assert(data@.subrange(0, i + 1).drop_last() =~= data@.subrange(0, i as int));
        }
        crc = v;
        i += 1;
    }
    proof {
        assert(data@.subrange(0, data@.len() as int) =~= data@);
    }
    crc
}

/// The `data_type` of a UART frame.
#[derive(Debug, Clone, Copy, PartialEq, Eq, Structural)]
pub enum DataType {
    /// A telecommand (0x35).
    TeleCommand,
    /// A telemetry frame (0x05).
    TeleMetry,
}

impl DataType {
    /// The wire code.
    pub open spec fn spec_code(self) -> u8 {
        match self {
            DataType::TeleCommand => 0x35,
            DataType::TeleMetry => 0x05,
        }
    }

    /// The wire code.
    pub fn code(self) -> (r: u8)
        ensures
            r == self.spec_code(),
    {
        match self {
            DataType::TeleCommand => 0x35,
            DataType::TeleMetry => 0x05,
        }
    }

    /// Decode a wire code; `None` for unknown codes.
    pub fn from_code(code: u8) -> (r: Option<DataType>)
        ensures
            r is Some <==> (code == 0x35 || code == 0x05),
            r is Some ==> r->0.spec_code() == code,
    {
        if code == 0x35 {
            Some(DataType::TeleCommand)
        } else if code == 0x05 {
            Some(DataType::TeleMetry)
        } else {
            None
        }
    }
}

/// The telecommand sub-commands.
#[derive(Debug, Clone, Copy, PartialEq, Eq, Structural)]
pub enum TeleCommand {
    /// Basic telecommand (0x10).
    BasicTeleCommand,
    /// General telecommand (0x11).
    GeneralTeleCommand,
    /// UDP telecommand backup (0x12).
    UDPTeleCommnadBackup,
    /// Upload request (0xA0).
    UploadRequestCommand,
    /// Upload data (0xA1).
    UploadDataCommand,
    /// Download (0xC0).
    DownloadCommand,
}

/// The telemetry sub-commands.
#[derive(Debug, Clone, Copy, PartialEq, Eq, Structural)]
pub enum TeleMetry {
    /// UART quick telemetry (0x20).
    UARTQuickTeleMetry,
    /// UDP telemetry backup (0x22).
    UDPTeleMetryBackup,
    /// CAN telemetry backup (0x23).
    CANTeleMetryBackup,
}

/// The `command_type` of a UART frame: one of a closed set of sub-commands.
#[derive(Debug, Clone, Copy, PartialEq, Eq, Structural)]
pub enum Command {
    /// A telecommand sub-command.
    TeleCommand(TeleCommand),
    /// A telemetry sub-command.
    TeleMetry(TeleMetry),
}

impl Command {
    /// The wire code.
    pub open spec fn spec_code(self) -> u8 {
        match self {
            Command::TeleCommand(TeleCommand::BasicTeleCommand) => 0x10,
            Command::TeleCommand(TeleCommand::GeneralTeleCommand) => 0x11,
            Command::TeleCommand(TeleCommand::UDPTeleCommnadBackup) => 0x12,
            Command::TeleCommand(TeleCommand::UploadRequestCommand) => 0xA0,
            Command::TeleCommand(TeleCommand::UploadDataCommand) => 0xA1,
            Command::TeleCommand(TeleCommand::DownloadCommand) => 0xC0,
            Command::TeleMetry(TeleMetry::UARTQuickTeleMetry) => 0x20,
            Command::TeleMetry(TeleMetry::UDPTeleMetryBackup) => 0x22,
            Command::TeleMetry(TeleMetry::CANTeleMetryBackup) => 0x23,
        }
    }

    /// Whether a wire code denotes a known sub-command.
    pub open spec fn spec_known_code(code: u8) -> bool {
        code == 0x10 || code == 0x11 || code == 0x12 || code == 0xA0 || code == 0xA1 || code
            == 0xC0 || code == 0x20 || code == 0x22 || code == 0x23
    }

    /// The wire code.
    pub fn code(self) -> (r: u8)
        ensures
            r == self.spec_code(),
    {
        match self {
            Command::TeleCommand(TeleCommand::BasicTeleCommand) => 0x10,
            Command::TeleCommand(TeleCommand::GeneralTeleCommand) => 0x11,
            Command::TeleCommand(TeleCommand::UDPTeleCommnadBackup) => 0x12,
            Command::TeleCommand(TeleCommand::UploadRequestCommand) => 0xA0,
            Command::TeleCommand(TeleCommand::UploadDataCommand) => 0xA1,
            Command::TeleCommand(TeleCommand::DownloadCommand) => 0xC0,
            Command::TeleMetry(TeleMetry::UARTQuickTeleMetry) => 0x20,
            Command::TeleMetry(TeleMetry::UDPTeleMetryBackup) => 0x22,
            Command::TeleMetry(TeleMetry::CANTeleMetryBackup) => 0x23,
        }
    }

    /// Decode a wire code; `None` for unknown codes.
    pub fn from_code(code: u8) -> (r: Option<Command>)
        ensures
            r is Some <==> Command::spec_known_code(code),
            r is Some ==> r->0.spec_code() == code,
    {
        if code == 0x10 {
            Some(Command::TeleCommand(TeleCommand::BasicTeleCommand))
        } else if code == 0x11 {
            Some(Command::TeleCommand(TeleCommand::GeneralTeleCommand))
        } else if code == 0x12 {
            Some(Command::TeleCommand(TeleCommand::UDPTeleCommnadBackup))
        } else if code == 0xA0 {
            Some(Command::TeleCommand(TeleCommand::UploadRequestCommand))
        } else if code == 0xA1 {
            Some(Command::TeleCommand(TeleCommand::UploadDataCommand))
        } else if code == 0xC0 {
            Some(Command::TeleCommand(TeleCommand::DownloadCommand))
        } else if code == 0x20 {
            Some(Command::TeleMetry(TeleMetry::UARTQuickTeleMetry))
        } else if code == 0x22 {
            Some(Command::TeleMetry(TeleMetry::UDPTeleMetryBackup))
        } else if code == 0x23 {
            Some(Command::TeleMetry(TeleMetry::CANTeleMetryBackup))
        } else {
            None
        }
    }
}

/// A parsed UART frame.
#[derive(Debug)]
pub struct TyUartProtocol {
    /// The platform (device) ID.
    pub platform_id: u8,
    /// The length field: `data_type`, `command_type`, `req_id` and payload.
    pub data_len: u16,
    /// The data type.
    pub data_type: DataType,
    /// The sub-command.
    pub command_type: Command,
    /// The request ID.
    pub req_id: u8,
    /// The payload bytes.
    pub data: Vec<u8>,
    /// The checksum byte as read from the wire.
    pub checksum: u8,
}

/// Whether `input` is one well-formed UART wire frame: the sentinel, a known
/// `data_type` and `command_type`, a length field of at least the three typed
/// bytes, and a total length that matches the length field exactly.
pub open spec fn spec_uart_wire_valid(input: Seq<u8>) -> bool {
    &&& input.len() >= 9
    &&& input[0] == 0xeb
    &&& input[1] == 0x90
    &&& crate::can::codec::spec_be16(input[3], input[4]) >= 3
    &&& input.len() == crate::can::codec::spec_be16(input[3], input[4]) + 6
    &&& (input[5] == 0x35 || input[5] == 0x05)
    &&& Command::spec_known_code(input[6])
}

impl TyUartProtocol {
    /// Whether this parse is exactly what `input` holds.
    pub open spec fn parses(&self, input: Seq<u8>) -> bool {
        &&& self.platform_id == input[2]
        &&& self.data_len == crate::can::codec::spec_be16(input[3], input[4])
        &&& self.data_type.spec_code() == input[5]
        &&& self.command_type.spec_code() == input[6]
        &&& self.req_id == input[7]
        &&& self.data@ == input.subrange(8, input.len() - 1)
        &&& self.checksum == input[input.len() - 1]
    }

    /// Parse one wire frame. Fails with `FrameError` on anything but a
    /// well-formed frame; the CRC is not verified here.
    pub fn from_slice_to_self(input: &[u8]) -> (r: Result<TyUartProtocol, DeviceAdaptorError>)
        ensures
            r is Ok <==> spec_uart_wire_valid(input@),
            r is Err ==> r->Err_0 is FrameError,
            r is Ok ==> r->Ok_0.parses(input@),
    {
        if input.len() < 9 {
            return Err(DeviceAdaptorError::FrameError("uart frame too short".to_owned()));
        }
        if input[0] != 0xeb || input[1] != 0x90 {
            return Err(DeviceAdaptorError::FrameError("uart header mismatch".to_owned()));
        }
        let platform_id = input[2];
        let data_len: u16 = input[3] as u16 * 256 + input[4] as u16;
        if data_len < 3 {
            return Err(DeviceAdaptorError::FrameError("uart length too small".to_owned()));
        }
        if input.len() != data_len as usize + 6 {
            return Err(DeviceAdaptorError::FrameError("uart length mismatch".to_owned()));
        }
        let data_type = match DataType::from_code(input[5]) {
            Some(t) => t,
            None => {
                return Err(DeviceAdaptorError::FrameError("unknown data type".to_owned()));
            },
        };
        let command_type = match Command::from_code(input[6]) {
            Some(c) => c,
            None => {
                return Err(DeviceAdaptorError::FrameError("unknown command type".to_owned()));
            },
        };
        let req_id = input[7];
        let data = vstd::slice::slice_to_vec(
            vstd::slice::slice_subrange(input, 8, input.len() - 1),
        );
        let checksum = input[input.len() - 1];
        Ok(TyUartProtocol { platform_id, data_len, data_type, command_type, req_id, data, checksum })
    }

    /// Serialise this frame back to its wire bytes, writing the stored
    /// checksum byte as it is.
    pub fn from_self_to_slice(&self) -> (r: Vec<u8>)
        ensures
            r@ == seq![
                0xebu8,
                0x90u8,
                self.platform_id,
                crate::can::codec::spec_u16_hi(self.data_len),
                crate::can::codec::spec_u16_lo(self.data_len),
                self.data_type.spec_code(),
                self.command_type.spec_code(),
                self.req_id,
            ] + self.data@ + seq![self.checksum],
    {
        let mut result: Vec<u8> = Vec::new();
        result.push(0xeb);
        result.push(0x90);
        result.push(self.platform_id);
        result.push((self.data_len / 256) as u8);
        result.push((self.data_len % 256) as u8);
        result.push(self.data_type.code());
        result.push(self.command_type.code());
        result.push(self.req_id);
        let mut i: usize = 0;
        while i < self.data.len()
            invariant
                i <= self.data@.len(),
                result@.len() == 8 + i,
                result@.subrange(0, 8) == seq![
                    0xebu8,
                    0x90u8,
                    self.platform_id,
                    crate::can::codec::spec_u16_hi(self.data_len),
                    crate::can::codec::spec_u16_lo(self.data_len),
                    self.data_type.spec_code(),
                    self.command_type.spec_code(),
                    self.req_id,
                ],
                result@.skip(8) == self.data@.subrange(0, i as int),
            decreases self.data@.len() - i,
        {
            result.push(self.data[i]);
            proof {
                assert(result@.subrange(0, 8) =~= old_prefix(self));
                assert(result@.skip(8) =~= self.data@.subrange(0, i + 1));
            }
            i += 1;
        }
        result.push(self.checksum);
        proof {
            assert(self.data@.subrange(0, self.data@.len() as int) =~= self.data@);
            assert(result@ =~= old_prefix(self) + self.data@ + seq![self.checksum]);
        }
        result
    }
}

/// The first eight wire bytes of a serialised frame.
pub open spec fn old_prefix(p: &TyUartProtocol) -> Seq<u8> {
    seq![
        0xebu8,
        0x90u8,
        p.platform_id,
        crate::can::codec::spec_u16_hi(p.data_len),
        crate::can::codec::spec_u16_lo(p.data_len),
        p.data_type.spec_code(),
        p.command_type.spec_code(),
        p.req_id,
    ]
}

/// The MTU of the UART link: quick telemetry may use the larger frame.
pub fn uart_mtu(flag: FrameFlag) -> (r: usize)
    ensures
        r == if flag.uart_telemetry {
            UART_MTU_TELEMETRY as int
        } else {
            UART_MTU_DEFAULT as int
        },
{
    if flag.uart_telemetry {
        UART_MTU_TELEMETRY
    } else {
        UART_MTU_DEFAULT
    }
}

/// Turn one received wire frame into a bus frame: parse it and carry the
/// parsed fields in the metadata. The CRC is not verified, as on the default
/// read path.
pub fn uart_decode(input: &[u8]) -> (r: Result<Frame, DeviceAdaptorError>)
    ensures
        r is Ok <==> (spec_uart_wire_valid(input@) && input@.len() - 9
            <= crate::frame::FRAME_MAX_LENGTH),
        r is Err ==> r->Err_0 is FrameError,
        r is Ok ==> {
            let f = r->Ok_0;
            &&& f.wf()
            &&& f.payload() == input@.subrange(8, input@.len() - 1)
            &&& f.meta.len == input@.len() - 9
            &&& f.meta.src_id == 0
            &&& f.meta.dest_id == input@[2]
            &&& f.meta.id == input@[7]
            &&& f.meta.data_type == input@[5]
            &&& f.meta.command_type == input@[6]
            &&& f.meta.flag == FrameFlag::spec_empty()
        },
{
    let parsed = TyUartProtocol::from_slice_to_self(input)?;
    let meta = FrameMeta {
        src_id: 0,
        dest_id: parsed.platform_id,
        id: parsed.req_id,
        len: 0,
        data_type: parsed.data_type.code(),
        command_type: parsed.command_type.code(),
        flag: FrameFlag::empty(),
    };
    let frame = Frame::new(meta, parsed.data.as_slice())?;
    Ok(frame)
}

/// The synthetic sub-protocol selector of the feature-gated read mode: two
/// marker bytes in front of an upload or download payload, nothing else.
pub open spec fn spec_upload_markers(command: u8) -> Seq<u8> {
    if command == 0xa0 || command == 0xa1 {
        seq![0x20u8, 0x04u8]
    } else if command == 0xc0 {
        seq![0x20u8, 0x05u8]
    } else {
        Seq::<u8>::empty()
    }
}

/// Like `uart_decode`, but as the feature-gated read mode: the payload of an
/// upload-request or upload-data command gets the marker bytes `20 04`
/// prepended, that of a download command `20 05`.
pub fn uart_decode_with_markers(input: &[u8]) -> (r: Result<Frame, DeviceAdaptorError>)
    ensures
        r is Ok <==> (spec_uart_wire_valid(input@) && input@.len() - 9 + spec_upload_markers(
            input@[6],
        ).len() <= crate::frame::FRAME_MAX_LENGTH),
        r is Err ==> r->Err_0 is FrameError,
        r is Ok ==> {
            let f = r->Ok_0;
            &&& f.wf()
            &&& f.payload() == spec_upload_markers(input@[6]) + input@.subrange(
                8,
                input@.len() - 1,
            )
            &&& f.meta.len == input@.len() - 9 + spec_upload_markers(input@[6]).len()
            &&& f.meta.src_id == 0
            &&& f.meta.dest_id == input@[2]
            &&& f.meta.id == input@[7]
            &&& f.meta.data_type == input@[5]
            &&& f.meta.command_type == input@[6]
            &&& f.meta.flag == FrameFlag::spec_empty()
        },
{
    let parsed = TyUartProtocol::from_slice_to_self(input)?;
    let code = parsed.command_type.code();
    let mut data: Vec<u8> = Vec::new();
    if code == 0xa0 || code == 0xa1 {
        data.push(0x20);
        data.push(0x04);
    } else if code == 0xc0 {
        data.push(0x20);
        data.push(0x05);
    }
    data.extend_from_slice(parsed.data.as_slice());
    proof {
        assert(data@ =~= spec_upload_markers(input@[6]) + input@.subrange(8, input@.len() - 1));
    }
    let meta = FrameMeta {
        src_id: 0,
        dest_id: parsed.platform_id,
        id: parsed.req_id,
        len: 0,
        data_type: parsed.data_type.code(),
        command_type: code,
        flag: FrameFlag::empty(),
    };
    let frame = Frame::new(meta, data.as_slice())?;
    Ok(frame)
}

/// Like `uart_decode`, but also verifies the CRC over the bytes from
/// `data_type` through the last payload byte, and rejects a mismatch.
pub fn uart_decode_checked(input: &[u8]) -> (r: Result<Frame, DeviceAdaptorError>)
    ensures
        r is Ok <==> (spec_uart_wire_valid(input@) && input@.len() - 9
            <= crate::frame::FRAME_MAX_LENGTH && spec_crc8(
            input@.subrange(5, input@.len() - 1),
        ) == input@[input@.len() - 1]),
        r is Err ==> r->Err_0 is FrameError,
        r is Ok ==> {
            let f = r->Ok_0;
            &&& f.wf()
            &&& f.payload() == input@.subrange(8, input@.len() - 1)
            &&& f.meta.len == input@.len() - 9
            &&& f.meta.dest_id == input@[2]
            &&& f.meta.id == input@[7]
        },
{
    let frame = uart_decode(input)?;
    let crc = crc8(vstd::slice::slice_subrange(input, 5, input.len() - 1));
    if crc != input[input.len() - 1] {
        return Err(DeviceAdaptorError::FrameError("uart crc mismatch".to_owned()));
    }
    Ok(frame)
}

/// Frame a bus frame for the UART wire, in place: prepend the eight header
/// bytes and append the CRC, using the buffer's slack. The length field is
/// the payload length plus the three typed bytes; the data type marks a
/// telecommand response.
pub fn fill_uart_frame(device_id: u8, frame: &mut Frame) -> (r: Result<(), DeviceAdaptorError>)
    requires
        old(frame).wf(),
        old(frame).meta.len + 3 <= 0xffff,
    ensures
        final(frame).wf(),
        r is Err <==> (old(frame).offset < 8 || old(frame).offset + old(frame).meta.len + 1
            > crate::frame::FRAME_DATA_LENGTH || old(frame).offset + old(frame).meta.len + 1 > old(
            frame,
        ).data@.len()),
        r is Err ==> r->Err_0 is FrameError,
        r is Ok ==> {
            let body = seq![
                UART_DATA_TYPE_TELECOMMAND,
                old(frame).meta.command_type,
                old(frame).meta.id,
            ] + old(frame).payload();
            &&& final(frame).payload() == seq![
                0xebu8,
                0x90u8,
                device_id,
                crate::can::codec::spec_u16_hi((old(frame).meta.len + 3) as u16),
                crate::can::codec::spec_u16_lo((old(frame).meta.len + 3) as u16),
            ] + body + seq![spec_crc8(body)]
            &&& final(frame).meta.len == old(frame).meta.len + 9
        },
{
    if frame.offset < 8 {
        return Err(DeviceAdaptorError::FrameError("expand_head".to_owned()));
    }
    if frame.offset as usize + frame.len() + 1 > crate::frame::FRAME_DATA_LENGTH || frame.offset
        as usize + frame.len() + 1 > frame.data.len() {
        return Err(DeviceAdaptorError::FrameError("expand_tail".to_owned()));
    }
    let command_type = frame.meta.command_type;
    let req_id = frame.meta.id;
    let old_len = frame.len() as u16;
    let r_head = frame.expand_head(8);
    proof {
        assert(r_head is Ok);
    }
    let r_tail = frame.expand_tail(1);
    proof {
        assert(r_tail is Ok);
    }
    let data_len: u16 = old_len + 3;
    frame.write_byte(0, 0xeb);
    frame.write_byte(1, 0x90);
    frame.write_byte(2, device_id);
    frame.write_byte(3, (data_len / 256) as u8);
    frame.write_byte(4, (data_len % 256) as u8);
    frame.write_byte(5, UART_DATA_TYPE_TELECOMMAND);
    frame.write_byte(6, command_type);
    frame.write_byte(7, req_id);
    proof {
        assert(frame.payload().subrange(5, old_len + 8) =~= seq![
            UART_DATA_TYPE_TELECOMMAND,
            old(frame).meta.command_type,
            old(frame).meta.id,
        ] + old(frame).payload());
    }
    let crc = {
        let visible = frame.data();
        crc8(vstd::slice::slice_subrange(visible, 5, visible.len() - 1))
    };
    frame.write_byte(old_len as usize + 8, crc);
    proof {
        let body = seq![
            UART_DATA_TYPE_TELECOMMAND,
            old(frame).meta.command_type,
            old(frame).meta.id,
        ] + old(frame).payload();
        assert(frame.payload() =~= seq![
            0xebu8,
            0x90u8,
            device_id,
            crate::can::codec::spec_u16_hi((old(frame).meta.len + 3) as u16),
            crate::can::codec::spec_u16_lo((old(frame).meta.len + 3) as u16),
        ] + body + seq![spec_crc8(body)]);
    }
    Ok(())
}

} // verus!
