//! The UDP control application: it reassembles commands that arrive split
//! over several frames, four transactions in flight at most, and forwards
//! each assembled piece over the fallback side channel.
use vstd::prelude::*;

use crate::envelope::Frame;
use crate::error::DeviceAdaptorError;
use crate::server::{Application, Fallback};

verus! {

/// The application ID the UDP control handler claims.
pub const UDP_CONTROL_APPLICATION_ID: u8 = 6;

/// How many split transactions may be in flight at once.
pub const MAX_UDP_TRANSACTION_ON_FLIGHT: usize = 4;

/// The capacity of one transaction's reassembly buffer.
pub const UDP_CONTROL_BUFFER_SIZE: usize = 150;

/// One in-flight transaction: the bytes collected so far.
pub struct UdpControlCommandContext {
    data: Vec<u8>,
    current_length: u16,
    is_avaliable: bool,
}

impl UdpControlCommandContext {
    /// Well-formedness: the fixed buffer size and a fill level inside it.
    pub closed spec fn wf(&self) -> bool {
        &&& self.data@.len() == UDP_CONTROL_BUFFER_SIZE
        &&& self.current_length <= UDP_CONTROL_BUFFER_SIZE
    }

    /// The bytes collected so far.
    pub closed spec fn collected(&self) -> Seq<u8> {
        self.data@.take(self.current_length as int)
    }

    /// Whether a first slice has arrived.
    pub closed spec fn spec_is_avaliable(&self) -> bool {
        self.is_avaliable
    }

    /// An empty context.
    pub fn new() -> (r: UdpControlCommandContext)
        ensures
            r.wf(),
            !r.spec_is_avaliable(),
    {
        UdpControlCommandContext {
            data: vec![0u8; UDP_CONTROL_BUFFER_SIZE],
            current_length: 0,
            is_avaliable: false,
        }
    }
}

/// The marker bytes in front of every forwarded UDP control command.
pub open spec fn spec_udp_control_prefix() -> Seq<u8> {
    seq![54u8, 48u8, 48u8, 48u8, 50u8]
}

/// The UDP control application, over a fallback side channel.
pub struct UdpControl<F> {
    fallback: F,
    buffer: Vec<UdpControlCommandContext>,
}

impl<F: Fallback> UdpControl<F> {
    /// Well-formedness: one context per in-flight transaction.
    pub closed spec fn wf(&self) -> bool {
        &&& self.buffer@.len() == MAX_UDP_TRANSACTION_ON_FLIGHT
        &&& forall|i: int| 0 <= i < self.buffer@.len() ==> (#[trigger] self.buffer@[i]).wf()
    }

    /// A UDP control handler over the given side channel.
    pub fn new(fallback: F) -> (r: UdpControl<F>)
        ensures
            r.wf(),
    {
        let mut buffer: Vec<UdpControlCommandContext> = Vec::new();
        let mut i: usize = 0;
        while i < MAX_UDP_TRANSACTION_ON_FLIGHT
            invariant
                i <= MAX_UDP_TRANSACTION_ON_FLIGHT,
                buffer@.len() == i,
                forall|j: int| 0 <= j < i ==> (#[trigger] buffer@[j]).wf(),
            decreases MAX_UDP_TRANSACTION_ON_FLIGHT - i,
        {
            buffer.push(UdpControlCommandContext::new());
            i += 1;
        }
        UdpControl { fallback, buffer }
    }
}

impl<F> UdpControl<F> {
    /// Split a command into request frames: each frame carries a sequence
    /// byte, whose top bit marks the final slice, and then at most `mtu - 1`
    /// command bytes.
    #[verifier::loop_isolation(false)]
    pub fn generate_request(command: &[u8], mtu: usize) -> (r: Result<
        Vec<Frame>,
        DeviceAdaptorError,
    >)
        requires
            2 <= mtu <= crate::frame::FRAME_MAX_LENGTH,
        ensures
            r is Ok ==> {
                let fs = r->Ok_0@;
                &&& (mtu - 1) * fs.len() >= command@.len()
                &&& (fs.len() >= 1 ==> (mtu - 1) * (fs.len() - 1) < command@.len())
                &&& (command@.len() == 0 ==> fs.len() == 0)
                &&& forall|i: int|
                    0 <= i < fs.len() ==> {
                        let chunk = command@.subrange(
                            (mtu - 1) * i,
                            if (mtu - 1) * (i + 1) <= command@.len() {
                                (mtu - 1) * (i + 1)
                            } else {
                                command@.len() as int
                            },
                        );
                        &&& (#[trigger] fs[i]).wf()
                        &&& fs[i].application_id == UDP_CONTROL_APPLICATION_ID
                        &&& fs[i].bus_frame.payload().len() == chunk.len() + 1
                        &&& fs[i].bus_frame.payload().skip(1) == chunk
                    }
            },
    {
        let chunk_len = mtu - 1;
        let full_chunks = command.len() / chunk_len;
        let has_remainder = command.len() % chunk_len != 0;
        let mut frames: Vec<Frame> = Vec::new();
        let mut offset: usize = 0;
        let mut i: usize = 0;
        while offset < command.len()
            invariant
                2 <= mtu <= crate::frame::FRAME_MAX_LENGTH,
                chunk_len == mtu - 1,
                offset <= command@.len(),
                i == frames@.len(),
                i <= 255,
                offset == chunk_len * i || (offset == command@.len() && chunk_len * i
                    >= command@.len() && chunk_len * (i - 1) < command@.len() && i >= 1),
                offset < command@.len() ==> offset == chunk_len * i,
                command@.len() > 0 && offset == chunk_len * i && offset == command@.len() ==> (
                chunk_len * (i - 1) < command@.len() && i >= 1),
                forall|k: int|
                    0 <= k < frames@.len() ==> {
                        let chunk = command@.subrange(
                            chunk_len * k,
                            if chunk_len * (k + 1) <= command@.len() {
                                chunk_len * (k + 1)
                            } else {
                                command@.len() as int
                            },
                        );
                        &&& (#[trigger] frames@[k]).wf()
                        &&& frames@[k].application_id == UDP_CONTROL_APPLICATION_ID
                        &&& frames@[k].bus_frame.payload().len() == chunk.len() + 1
                        &&& frames@[k].bus_frame.payload().skip(1) == chunk
                    },
            decreases command@.len() - offset,
        {
            if i >= 255 {
                return Err(DeviceAdaptorError::FrameError("command too long".to_owned()));
            }
            let this_len = if command.len() - offset > chunk_len {
                chunk_len
            } else {
                command.len() - offset
            };
            let chunk = vstd::slice::slice_subrange(command, offset, offset + this_len);
            let seq_byte: u8 = if (!has_remainder && i == full_chunks) || (has_remainder && i >= 1
                && i - 1 == full_chunks) {
                ((0x80u16 | i as u16) % 256) as u8
            } else {
                i as u8
            };
            let mut payload: Vec<u8> = Vec::new();
            payload.push(seq_byte);
            let mut k: usize = 0;
            while k < chunk.len()
                invariant
                    k <= chunk@.len(),
                    payload@.len() == 1 + k,
                    payload@.skip(1) == chunk@.subrange(0, k as int),
                decreases chunk@.len() - k,
            {
                payload.push(chunk[k]);
                proof {
                    assert(payload@.skip(1) =~= chunk@.subrange(0, k + 1));
                }
                k += 1;
            }
            proof {
                assert(payload@.skip(1) =~= chunk@);
            }
            let frame = Frame::new_from_slice(UDP_CONTROL_APPLICATION_ID, payload.as_slice())?;
            frames.push(frame);
            proof {
                assert(chunk_len * (i + 1) == chunk_len * i + chunk_len) by (nonlinear_arith);
                assert(chunk_len * ((i + 1) - 1) == chunk_len * i) by (nonlinear_arith);
                assert(frames@[i as int].bus_frame.payload().skip(1) =~= command@.subrange(
                    chunk_len * i as int,
                    if chunk_len * (i + 1) <= command@.len() {
                        chunk_len * (i + 1) as int
                    } else {
                        command@.len() as int
                    },
                ));
            }
            offset += this_len;
            i += 1;
        }
        proof {
            assert(offset == command@.len());
            assert(chunk_len * i >= command@.len());
            if command@.len() > 0 {
                assert(i >= 1 && chunk_len * (i - 1) < command@.len());
            }
            if command@.len() == 0 {
                assert(chunk_len * i == 0);
                assert(i == 0) by (nonlinear_arith)
                    requires
                        chunk_len * i == 0,
                        chunk_len >= 1,
                ;
            }
        }
        Ok(frames)
    }
}

impl<F: Fallback> Application for UdpControl<F> {
    open spec fn inv(&self) -> bool {
        self.wf()
    }

    /// UDP control never answers on the bus; a slice without its sequence
    /// byte is an error.
    open spec fn handle_post(
        pre: Self,
        frame: Frame,
        mtu: u16,
        post: Self,
        r: Result<Option<Frame>, DeviceAdaptorError>,
    ) -> bool {
        &&& (frame.bus_frame.payload().len() == 0 ==> r is Err)
        &&& (r is Ok ==> r->Ok_0 is None)
    }

    open spec fn spec_application_id(&self) -> u8 {
        UDP_CONTROL_APPLICATION_ID
    }

    open spec fn spec_application_name(&self) -> Seq<char> {
        "UDP control over tcsp"@
    }

    fn application_id(&self) -> (r: u8) {
        UDP_CONTROL_APPLICATION_ID
    }

    fn application_name(&self) -> (r: &'static str) {
        "UDP control over tcsp"
    }

    /// Collect one slice of a split command. The first slice of a
    /// transaction is stored; a continuation forwards the stored bytes plus
    /// as much of the new slice as the buffer line holds, keeping the rest;
    /// the final slice forwards everything and retires the transaction.
    /// Nothing goes back to the bus.
    #[verifier::loop_isolation(false)]
    fn handle(&mut self, frame: &Frame, _mtu: u16) -> (r: Result<
        Option<Frame>,
        DeviceAdaptorError,
    >)
    {
        let data = frame.data();
        if data.len() == 0 {
            return Err(DeviceAdaptorError::FrameError("empty udp control frame".to_owned()));
        }
        let seq_struct = data[0];
        let seq = ((seq_struct & 0x7f) as usize) % MAX_UDP_TRANSACTION_ON_FLIGHT;
        let is_last = seq_struct & 0x80 != 0;
        let payload = vstd::slice::slice_subrange(data, 1, data.len());
        if !self.buffer_is_available(seq) {
            self.store_first_slice(seq, payload);
            Ok(None)
        } else if is_last {
            let msg = self.assemble_message(seq, payload, payload.len());
            self.set_available(seq, false);
            let _reply = self.fallback.fallback(msg)?;
            Ok(None)
        } else {
            let current = self.current_length(seq);
            let first_part = UDP_CONTROL_BUFFER_SIZE - current;
            if payload.len() < first_part {
                return Err(
                    DeviceAdaptorError::FrameError("udp control slice too short".to_owned()),
                );
            }
            let msg = self.assemble_message(seq, payload, first_part);
            self.store_rest(seq, payload, first_part);
            let _reply = self.fallback.fallback(msg)?;
            Ok(None)
        }
    }
}

impl<F: Fallback> UdpControl<F> {
    /// Whether transaction `seq` has a first slice stored.
    fn buffer_is_available(&self, seq: usize) -> (r: bool)
        requires
            self.wf(),
            seq < MAX_UDP_TRANSACTION_ON_FLIGHT,
        ensures
            r == self.buffer@[seq as int].spec_is_avaliable(),
    {
        self.buffer[seq].is_avaliable
    }

    /// The fill level of transaction `seq`.
    fn current_length(&self, seq: usize) -> (r: usize)
        requires
            self.wf(),
            seq < MAX_UDP_TRANSACTION_ON_FLIGHT,
        ensures
            r == self.buffer@[seq as int].collected().len(),
            r <= UDP_CONTROL_BUFFER_SIZE,
    {
        self.buffer[seq].current_length as usize
    }

    /// Store a transaction's first slice, as much as the buffer line holds.
    #[verifier::loop_isolation(false)]
    fn store_first_slice(&mut self, seq: usize, payload: &[u8])
        requires
            old(self).wf(),
            seq < MAX_UDP_TRANSACTION_ON_FLIGHT,
        ensures
            final(self).wf(),
            final(self).buffer@[seq as int].spec_is_avaliable(),
    {
        let count = if payload.len() > UDP_CONTROL_BUFFER_SIZE {
            UDP_CONTROL_BUFFER_SIZE
        } else {
            payload.len()
        };
        let mut line = UdpControlCommandContext::new();
        let mut i: usize = 0;
        while i < count
            invariant
                i <= count,
                count <= payload@.len(),
                count <= UDP_CONTROL_BUFFER_SIZE,
                line.data@.len() == UDP_CONTROL_BUFFER_SIZE,
            decreases count - i,
        {
            line.data.set(i, payload[i]);
            i += 1;
        }
        line.current_length = count as u16;
        line.is_avaliable = true;
        self.buffer.set(seq, line);
    }

    /// Mark transaction `seq` as available or retired.
    fn set_available(&mut self, seq: usize, available: bool)
        requires
            old(self).wf(),
            seq < MAX_UDP_TRANSACTION_ON_FLIGHT,
        ensures
            final(self).wf(),
            final(self).buffer@[seq as int].spec_is_avaliable() == available,
    {
        let mut line: UdpControlCommandContext = UdpControlCommandContext::new();
        self.buffer.set_and_swap(seq, &mut line);
        line.is_avaliable = available;
        self.buffer.set(seq, line);
    }

    /// The forwarded message: the marker prefix, the collected bytes of
    /// transaction `seq`, and the first `take` bytes of the new slice.
    #[verifier::loop_isolation(false)]
    fn assemble_message(&self, seq: usize, payload: &[u8], take: usize) -> (r: Vec<u8>)
        requires
            self.wf(),
            seq < MAX_UDP_TRANSACTION_ON_FLIGHT,
            take <= payload@.len(),
        ensures
            r@ == spec_udp_control_prefix() + self.buffer@[seq as int].collected()
                + payload@.subrange(0, take as int),
    {
        let mut msg: Vec<u8> = Vec::new();
        msg.push(54);
        msg.push(48);
        msg.push(48);
        msg.push(48);
        msg.push(50);
        let current = self.buffer[seq].current_length as usize;
        let mut i: usize = 0;
        while i < current
            invariant
                self.wf(),
                seq < MAX_UDP_TRANSACTION_ON_FLIGHT,
                current == self.buffer@[seq as int].collected().len(),
                i <= current,
                msg@.len() == 5 + i,
                msg@ == spec_udp_control_prefix() + self.buffer@[seq as int].collected().subrange(
                    0,
                    i as int,
                ),
            decreases current - i,
        {
            msg.push(self.buffer[seq].data[i]);
            proof {
                assert(msg@ =~= spec_udp_control_prefix() + self.buffer@[seq as int].collected()
                    .subrange(0, i + 1));
            }
            i += 1;
        }
        proof {
            assert(self.buffer@[seq as int].collected().subrange(
                0,
                self.buffer@[seq as int].collected().len() as int,
            ) =~= self.buffer@[seq as int].collected());
        }
        let mut k: usize = 0;
        while k < take
            invariant
                k <= take,
                take <= payload@.len(),
                msg@ == spec_udp_control_prefix() + self.buffer@[seq as int].collected()
                    + payload@.subrange(0, k as int),
            decreases take - k,
        {
            msg.push(payload[k]);
            proof {
                assert(msg@ =~= spec_udp_control_prefix() + self.buffer@[seq as int].collected()
                    + payload@.subrange(0, k + 1));
            }
            k += 1;
        }
        msg
    }

    /// Keep the bytes of the new slice that did not fit the forwarded
    /// message, as the transaction's new contents.
    #[verifier::loop_isolation(false)]
    fn store_rest(&mut self, seq: usize, payload: &[u8], first_part: usize)
        requires
            old(self).wf(),
            seq < MAX_UDP_TRANSACTION_ON_FLIGHT,
            first_part <= payload@.len(),
        ensures
            final(self).wf(),
            final(self).buffer@[seq as int].spec_is_avaliable() == old(self).buffer@[seq
                as int].spec_is_avaliable(),
    {
        let second_part = payload.len() - first_part;
        let count = if second_part > UDP_CONTROL_BUFFER_SIZE {
            UDP_CONTROL_BUFFER_SIZE
        } else {
            second_part
        };
        let mut line: UdpControlCommandContext = UdpControlCommandContext::new();
        self.buffer.set_and_swap(seq, &mut line);
        let mut i: usize = 0;
        while i < count
            invariant
                i <= count,
                first_part + count <= payload@.len(),
                count <= UDP_CONTROL_BUFFER_SIZE,
                line.data@.len() == UDP_CONTROL_BUFFER_SIZE,
                line.current_length == old(self).buffer@[seq as int].collected().len(),
                line.is_avaliable == old(self).buffer@[seq as int].spec_is_avaliable(),
            decreases count - i,
        {
            line.data.set(i, payload[first_part + i]);
            i += 1;
        }
        self.buffer.set(seq, line);
    }
}

} // verus!
