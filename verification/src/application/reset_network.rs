//! The reset-network application: it lists the state of the two network
//! interfaces or resets them. Running the host commands is outside the core;
//! a `NetworkControl` port performs them, and this module decides, parses
//! and serialises.
use vstd::prelude::*;

use crate::envelope::Frame;
use crate::error::DeviceAdaptorError;
use crate::server::Application;
use vstd::string::StringSliceAdditionalSpecFns;

verus! {

/// The application ID the reset-network handler claims.
pub const RESET_NETWORK_APPLICATION_ID: u8 = 5;

/// Bytes of one serialised interface status: four address bytes, four flag
/// bytes, and a 24-byte reserve.
pub const NETWORK_INTERFACE_STATUS_LEN: usize = 32;

/// The commands of the network-control sub-protocol.
#[derive(Debug, Clone, Copy, PartialEq, Eq, Structural)]
pub enum NetworkControlCommand {
    /// Anything not listed below.
    Unknown,
    /// List the interfaces' state.
    List,
    /// Reset all interfaces.
    ResetAll,
}

impl NetworkControlCommand {
    /// The wire code.
    pub open spec fn spec_code(self) -> u8 {
        match self {
            NetworkControlCommand::Unknown => 0,
            NetworkControlCommand::List => 1,
            NetworkControlCommand::ResetAll => 2,
        }
    }

    /// The command a wire code denotes; unknown codes give `Unknown`.
    pub open spec fn spec_from_code(code: u8) -> NetworkControlCommand {
        if code == 1 {
            NetworkControlCommand::List
        } else if code == 2 {
            NetworkControlCommand::ResetAll
        } else {
            NetworkControlCommand::Unknown
        }
    }

    /// The wire code.
    pub fn code(self) -> (r: u8)
        ensures
            r == self.spec_code(),
            r < 64,
    {
        match self {
            NetworkControlCommand::Unknown => 0,
            NetworkControlCommand::List => 1,
            NetworkControlCommand::ResetAll => 2,
        }
    }

    /// Decode a wire code.
    pub fn from_code(code: u8) -> (r: NetworkControlCommand)
        ensures
            r == NetworkControlCommand::spec_from_code(code),
    {
        if code == 1 {
            NetworkControlCommand::List
        } else if code == 2 {
            NetworkControlCommand::ResetAll
        } else {
            NetworkControlCommand::Unknown
        }
    }
}

/// The statuses a response header reports.
#[derive(Debug, Clone, Copy, PartialEq, Eq, Structural)]
pub enum NetworkControlStatus {
    /// The command ran.
    RunOk,
    /// The command failed to run.
    RunError,
    /// The command byte was not understood.
    UnknowCommand,
}

impl NetworkControlStatus {
    /// The wire code.
    pub open spec fn spec_code(self) -> u8 {
        match self {
            NetworkControlStatus::RunOk => 1,
            NetworkControlStatus::RunError => 2,
            NetworkControlStatus::UnknowCommand => 3,
        }
    }

    /// The wire code.
    pub fn code(self) -> (r: u8)
        ensures
            r == self.spec_code(),
            r < 4,
    {
        match self {
            NetworkControlStatus::RunOk => 1,
            NetworkControlStatus::RunError => 2,
            NetworkControlStatus::UnknowCommand => 3,
        }
    }
}

/// The one-byte response header: the command in the low six bits, the status
/// in the top two.
#[derive(Debug, Clone, Copy, PartialEq, Eq, Structural)]
pub struct NetworkControlHeader {
    /// The packed command and status.
    pub cmd_and_status: u8,
}

/// Pack a command and a status into the response header byte.
pub fn make_header(command: NetworkControlCommand, status: NetworkControlStatus) -> (r:
    NetworkControlHeader)
    ensures
        r.cmd_and_status == command.spec_code() + status.spec_code() * 64,
{
    NetworkControlHeader { cmd_and_status: command.code() + status.code() * 64 }
}

/// The state flags of one network interface, as the host reports them.
#[derive(Debug, Clone, Copy, PartialEq, Eq, Structural)]
pub struct NetworkFlag {
    /// The flag bits.
    pub bits: u32,
}

/// The flag bits a textual flag name denotes; unknown names carry no bit.
pub open spec fn spec_flag_of_name(name: Seq<u8>) -> u32 {
    if name == "UP".spec_bytes() {
        1u32
    } else if name == "BROADCAST".spec_bytes() {
        4u32
    } else if name == "RUNNING".spec_bytes() {
        8u32
    } else if name == "MULTICAST".spec_bytes() {
        16u32
    } else if name == "LOOPBACK".spec_bytes() {
        32u32
    } else if name == "NOARP".spec_bytes() {
        64u32
    } else if name == "NOCHECKSUM".spec_bytes() {
        128u32
    } else if name == "QUORUMLOSS".spec_bytes() {
        256u32
    } else {
        0u32
    }
}

/// The big-endian bytes of a 32-bit value.
pub open spec fn spec_u32_be_bytes(x: u32) -> Seq<u8> {
    seq![
        (x / 0x1000000) as u8,
        ((x / 0x10000) % 256) as u8,
        ((x / 256) % 256) as u8,
        (x % 256) as u8,
    ]
}

impl NetworkFlag {
    /// No flag set.
    pub fn empty() -> (r: NetworkFlag)
        ensures
            r.bits == 0,
    {
        NetworkFlag { bits: 0 }
    }

    /// The flag a textual name denotes.
    pub fn from_name(name: &[u8]) -> (r: NetworkFlag)
        ensures
            r.bits == spec_flag_of_name(name@),
    {
        if slice_eq(name, "UP".as_bytes()) {
            NetworkFlag { bits: 1 }
        } else if slice_eq(name, "BROADCAST".as_bytes()) {
            NetworkFlag { bits: 4 }
        } else if slice_eq(name, "RUNNING".as_bytes()) {
            NetworkFlag { bits: 8 }
        } else if slice_eq(name, "MULTICAST".as_bytes()) {
            NetworkFlag { bits: 16 }
        } else if slice_eq(name, "LOOPBACK".as_bytes()) {
            NetworkFlag { bits: 32 }
        } else if slice_eq(name, "NOARP".as_bytes()) {
            NetworkFlag { bits: 64 }
        } else if slice_eq(name, "NOCHECKSUM".as_bytes()) {
            NetworkFlag { bits: 128 }
        } else if slice_eq(name, "QUORUMLOSS".as_bytes()) {
            NetworkFlag { bits: 256 }
        } else {
            NetworkFlag { bits: 0 }
        }
    }

    /// The union of two flag sets.
    pub fn union(self, other: NetworkFlag) -> (r: NetworkFlag)
        ensures
            r.bits == self.bits | other.bits,
    {
        NetworkFlag { bits: self.bits | other.bits }
    }

    /// The flag bits as they go onto the wire, big-endian.
    pub fn as_network_nedian(&self) -> (r: Vec<u8>)
        ensures
            r@ == spec_u32_be_bytes(self.bits),
    {
        let mut bytes: Vec<u8> = Vec::new();
        bytes.push((self.bits / 0x1000000) as u8);
        bytes.push(((self.bits / 0x10000) % 256) as u8);
        bytes.push(((self.bits / 256) % 256) as u8);
        bytes.push((self.bits % 256) as u8);
        proof {
            assert(bytes@ =~= spec_u32_be_bytes(self.bits));
        }
        bytes
    }
}

/// Whether two byte slices hold the same bytes.
#[verifier::loop_isolation(false)]
pub fn slice_eq(a: &[u8], b: &[u8]) -> (r: bool)
    ensures
        r == (a@ == b@),
{
    if a.len() != b.len() {
        proof {
            assert(a@.len() != b@.len());
        }
        return false;
    }
    let mut i: usize = 0;
    while i < a.len()
        invariant
            i <= a@.len(),
            a@.len() == b@.len(),
            forall|j: int| 0 <= j < i ==> a@[j] == b@[j],
        decreases a@.len() - i,
    {
        if a[i] != b[i] {
            return false;
        }
        i += 1;
    }
    proof {
        assert(a@ =~= b@);
    }
    true
}

/// Find the first occurrence of `b` in `s`.
#[verifier::loop_isolation(false)]
pub fn find_byte(s: &[u8], b: u8) -> (r: Option<usize>)
    ensures
        r is Some ==> {
            &&& r->0 < s@.len()
            &&& s@[r->0 as int] == b
            &&& forall|j: int| 0 <= j < r->0 ==> s@[j] != b
        },
        r is None ==> forall|j: int| 0 <= j < s@.len() ==> s@[j] != b,
{
    let mut i: usize = 0;
    while i < s.len()
        invariant
            i <= s@.len(),
            forall|j: int| 0 <= j < i ==> s@[j] != b,
        decreases s@.len() - i,
    {
        if s[i] == b {
            return Some(i);
        }
        i += 1;
    }
    None
}

/// Read the interface flags out of a host status line: the comma-separated
/// flag names between the first `<` and the first following `>` are mapped
/// to their bits and united; anything else gives no flag.
pub fn extract_network_flag(input: &[u8]) -> (r: NetworkFlag)
    ensures
        r.bits == spec_extracted_flags(input@),
{
    let start = match find_byte(input, 0x3c) {
        Some(i) => i,
        None => {
            proof {
                lemma_find_byte_absent(input@, 0x3c);
            }
            return NetworkFlag::empty();
        },
    };
    let end = match find_byte(input, 0x3e) {
        Some(i) => i,
        None => {
            proof {
                lemma_find_byte_characterisation(input@, 0x3c, start as int);
                lemma_find_byte_absent(input@, 0x3e);
            }
            return NetworkFlag::empty();
        },
    };
    proof {
        lemma_find_byte_characterisation(input@, 0x3c, start as int);
        lemma_find_byte_characterisation(input@, 0x3e, end as int);
    }
    if end <= start {
        return NetworkFlag::empty();
    }
    let region = vstd::slice::slice_subrange(input, start + 1, end);
    let flag = fold_flag_names(region);
    flag
}

/// The flags named in a status line, as `extract_network_flag` reads them.
pub open spec fn spec_extracted_flags(input: Seq<u8>) -> u32 {
    let start = spec_find_byte(input, 0x3c);
    let end = spec_find_byte(input, 0x3e);
    if start < 0 || end < 0 || end <= start {
        0u32
    } else {
        spec_fold_flag_names(input.subrange(start + 1, end))
    }
}

/// The first index of `b` in `s`, or -1.
pub open spec fn spec_find_byte(s: Seq<u8>, b: u8) -> int
    decreases s.len(),
{
    if s.len() == 0 {
        -1
    } else if s[0] == b {
        0
    } else {
        let r = spec_find_byte(s.skip(1), b);
        if r < 0 {
            -1
        } else {
            r + 1
        }
    }
}

/// The union of the flag bits of the comma-separated names in `s`.
pub open spec fn spec_fold_flag_names(s: Seq<u8>) -> u32
    decreases s.len(),
{
    let c = spec_find_byte(s, 0x2c);
    if c < 0 || c >= s.len() {
        spec_flag_of_name(s)
    } else {
        spec_flag_of_name(s.subrange(0, c)) | spec_fold_flag_names(s.skip(c + 1))
    }
}

/// The first-occurrence characterisation of `spec_find_byte`.
proof fn lemma_find_byte_characterisation(s: Seq<u8>, b: u8, i: int)
    requires
        0 <= i < s.len(),
        s[i] == b,
        forall|j: int| 0 <= j < i ==> s[j] != b,
    ensures
        spec_find_byte(s, b) == i,
    decreases s.len(),
{
    if i > 0 {
        lemma_find_byte_characterisation(s.skip(1), b, i - 1);
    }
}

/// `spec_find_byte` is -1 exactly on sequences without `b`.
proof fn lemma_find_byte_absent(s: Seq<u8>, b: u8)
    requires
        forall|j: int| 0 <= j < s.len() ==> s[j] != b,
    ensures
        spec_find_byte(s, b) == -1,
    decreases s.len(),
{
    if s.len() > 0 {
        lemma_find_byte_absent(s.skip(1), b);
    }
}

/// Fold the comma-separated names of `s` into their flag bits.
fn fold_flag_names(s: &[u8]) -> (r: NetworkFlag)
    ensures
        r.bits == spec_fold_flag_names(s@),
    decreases s@.len(),
{
    match find_byte(s, 0x2c) {
        None => {
            proof {
                lemma_find_byte_absent(s@, 0x2c);
            }
            NetworkFlag::from_name(s)
        },
        Some(c) => {
            proof {
                lemma_find_byte_characterisation(s@, 0x2c, c as int);
            }
            let n = s.len();
            let head = vstd::slice::slice_subrange(s, 0, c);
            let tail = vstd::slice::slice_subrange(s, c + 1, n);
            let head_flag = NetworkFlag::from_name(head);
            let tail_flag = fold_flag_names(tail);
            proof {
                assert(s@.skip(c + 1) =~= tail@);
            }
            head_flag.union(tail_flag)
        },
    }
}

/// The state of one network interface: its address bytes and its flags.
#[derive(Debug, Clone, Copy, PartialEq, Eq, Structural)]
pub struct NetworkInterfaceStatus {
    /// The IPv4 address bytes.
    pub ip: u32,
    /// The interface flags.
    pub state: NetworkFlag,
}

impl NetworkInterfaceStatus {
    /// An interface with no address and no flags.
    pub fn unknown() -> (r: NetworkInterfaceStatus)
        ensures
            r.ip == 0,
            r.state.bits == 0,
    {
        NetworkInterfaceStatus { ip: 0, state: NetworkFlag { bits: 0 } }
    }

    /// The serialised status: address bytes, flag bytes, and the reserve,
    /// all big-endian.
    pub open spec fn spec_bytes(self) -> Seq<u8> {
        spec_u32_be_bytes(self.ip) + spec_u32_be_bytes(self.state.bits) + Seq::<u8>::new(
            24,
            |i: int| 0u8,
        )
    }
}

/// The state of both interfaces.
#[derive(Debug, Clone, Copy, PartialEq, Eq, Structural)]
pub struct NetworkStatus {
    /// The first interface.
    pub eth0: NetworkInterfaceStatus,
    /// The second interface.
    pub eth1: NetworkInterfaceStatus,
}

impl NetworkStatus {
    /// Both interfaces unknown.
    pub fn unknown() -> (r: NetworkStatus)
        ensures
            r.eth0.ip == 0 && r.eth0.state.bits == 0,
            r.eth1.ip == 0 && r.eth1.state.bits == 0,
    {
        NetworkStatus { eth0: NetworkInterfaceStatus::unknown(), eth1: NetworkInterfaceStatus::unknown() }
    }

    /// Serialise both interfaces for the wire, big-endian.
    pub fn into_network_endian_buffer(&self) -> (r: Vec<u8>)
        ensures
            r@ == self.eth0.spec_bytes() + self.eth1.spec_bytes(),
            r@.len() == 2 * NETWORK_INTERFACE_STATUS_LEN,
    {
        let mut out: Vec<u8> = Vec::new();
        let mut eth0_ip = NetworkFlag { bits: self.eth0.ip }.as_network_nedian();
        out.append(&mut eth0_ip);
        let mut eth0_state = self.eth0.state.as_network_nedian();
        out.append(&mut eth0_state);
        let mut i: usize = 0;
        while i < 24
            invariant
                i <= 24,
                out@.len() == 8 + i,
                out@.subrange(0, 8) == spec_u32_be_bytes(self.eth0.ip) + spec_u32_be_bytes(
                    self.eth0.state.bits,
                ),
                forall|j: int| 8 <= j < out@.len() ==> out@[j] == 0u8,
            decreases 24 - i,
        {
            out.push(0);
            proof {
                assert(out@.subrange(0, 8) =~= spec_u32_be_bytes(self.eth0.ip)
                    + spec_u32_be_bytes(self.eth0.state.bits));
            }
            i += 1;
        }
        proof {
            assert(out@ =~= self.eth0.spec_bytes());
        }
        let ghost first = out@;
        let mut eth1_ip = NetworkFlag { bits: self.eth1.ip }.as_network_nedian();
        out.append(&mut eth1_ip);
        let mut eth1_state = self.eth1.state.as_network_nedian();
        out.append(&mut eth1_state);
        let mut k: usize = 0;
        while k < 24
            invariant
                k <= 24,
                out@.len() == 40 + k,
                out@.subrange(0, 32) == first,
                first == self.eth0.spec_bytes(),
                out@.subrange(32, 40) == spec_u32_be_bytes(self.eth1.ip) + spec_u32_be_bytes(
                    self.eth1.state.bits,
                ),
                forall|j: int| 40 <= j < out@.len() ==> out@[j] == 0u8,
            decreases 24 - k,
        {
            out.push(0);
            proof {
                assert(out@.subrange(0, 32) =~= first);
                assert(out@.subrange(32, 40) =~= spec_u32_be_bytes(self.eth1.ip)
                    + spec_u32_be_bytes(self.eth1.state.bits));
            }
            k += 1;
        }
        proof {
            assert(out@ =~= self.eth0.spec_bytes() + self.eth1.spec_bytes());
        }
        out
    }
}

/// The host's network controls, as the reset-network application needs them:
/// list the interfaces' state, and reset them. Nothing is promised of the
/// host's answers.
pub trait NetworkControl {
    /// The state of both interfaces.
    fn list_status(&mut self) -> NetworkStatus;

    /// Reset all interfaces; whether that ran.
    fn reset_all(&mut self) -> bool;
}

/// The reset-network application, over a host network-control port.
pub struct ResetNetwork<N> {
    control: N,
}

impl<N: NetworkControl> ResetNetwork<N> {
    /// A reset-network handler over the given port.
    pub fn new(control: N) -> (r: ResetNetwork<N>) {
        ResetNetwork { control }
    }
}

impl<N: NetworkControl> Application for ResetNetwork<N> {
    open spec fn inv(&self) -> bool {
        true
    }

    /// Reset-network answers every non-empty command with a one-byte header,
    /// the list command also with the serialised interface status, source and
    /// destination exchanged, in a fresh default-offset frame; an empty
    /// command frame is an error.
    open spec fn handle_post(
        pre: Self,
        frame: Frame,
        mtu: u16,
        post: Self,
        r: Result<Option<Frame>, DeviceAdaptorError>,
    ) -> bool {
        &&& (frame.bus_frame.payload().len() == 0 ==> r is Err)
        &&& (r is Ok ==> frame.bus_frame.payload().len() > 0)
        &&& (r is Ok ==> {
            let resp = r->Ok_0->0;
            &&& r->Ok_0 is Some
            &&& resp.wf()
            &&& !resp.hdr_inserted
            &&& resp.application_id == RESET_NETWORK_APPLICATION_ID
            &&& resp.bus_frame.payload().len() >= 1
            &&& resp.bus_frame.offset == crate::frame::FRAME_DEFAULT_START_OFFSET
            &&& resp.bus_frame.data@.len() == crate::frame::FRAME_DATA_LENGTH
            &&& resp.bus_frame.meta.src_id == frame.bus_frame.meta.dest_id
            &&& resp.bus_frame.meta.dest_id == frame.bus_frame.meta.src_id
        })
    }

    open spec fn spec_application_id(&self) -> u8 {
        RESET_NETWORK_APPLICATION_ID
    }

    open spec fn spec_application_name(&self) -> Seq<char> {
        "Reset Network"@
    }

    fn application_id(&self) -> (r: u8) {
        RESET_NETWORK_APPLICATION_ID
    }

    fn application_name(&self) -> (r: &'static str) {
        "Reset Network"
    }

    /// Decode the command byte and answer: `List` with a header and the
    /// serialised interface status, `ResetAll` with a header telling whether
    /// the reset ran, and anything else with an unknown-command header.
    fn handle(&mut self, frame: &Frame, _mtu: u16) -> (r: Result<
        Option<Frame>,
        DeviceAdaptorError,
    >)
    {
        let data = frame.data();
        if data.len() == 0 {
            return Err(DeviceAdaptorError::FrameError("empty network command".to_owned()));
        }
        let cmd = NetworkControlCommand::from_code(data[0]);
        let mut response_data: Vec<u8> = Vec::new();
        match cmd {
            NetworkControlCommand::List => {
                let status = self.control.list_status();
                let hdr = make_header(cmd, NetworkControlStatus::RunOk);
                response_data.push(hdr.cmd_and_status);
                let mut body = status.into_network_endian_buffer();
                response_data.append(&mut body);
            },
            NetworkControlCommand::ResetAll => {
                let is_ok = self.control.reset_all();
                let hdr = if is_ok {
                    make_header(cmd, NetworkControlStatus::RunOk)
                } else {
                    make_header(cmd, NetworkControlStatus::RunError)
                };
                response_data.push(hdr.cmd_and_status);
            },
            NetworkControlCommand::Unknown => {
                let hdr = make_header(cmd, NetworkControlStatus::UnknowCommand);
                response_data.push(hdr.cmd_and_status);
            },
        }
        let mut response = Frame::new_from_slice(
            RESET_NETWORK_APPLICATION_ID,
            response_data.as_slice(),
        )?;
        response.set_meta_from_request(frame.meta());
        Ok(Some(response))
    }
}

} // verus!
