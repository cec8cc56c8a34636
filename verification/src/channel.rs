//! An in-memory adaptor that passes whole frames through a pair of
//! in-process queues. It exists for deterministic end-to-end tests without
//! hardware.
use vstd::prelude::*;

use crate::error::DeviceAdaptorError;
use crate::frame::Frame;
use crate::frame::FrameFlag;
use crate::server::DeviceAdaptor;

verus! {

/// The channel adaptor's MTU.
pub const CHANNEL_MTU: usize = 150;

/// A pair of in-process frame queues: `outgoing` is what the server sent,
/// `incoming` is what the peer fed in. A closed channel accepts no sends.
pub struct Channel {
    outgoing: Vec<Frame>,
    incoming: Vec<Frame>,
    closed: bool,
}

impl Channel {
    /// The frames sent and not yet taken by the peer, oldest first.
    pub closed spec fn spec_outgoing(&self) -> Seq<Frame> {
        self.outgoing@
    }

    /// The frames fed in and not yet received, oldest first.
    pub closed spec fn spec_incoming(&self) -> Seq<Frame> {
        self.incoming@
    }

    /// Whether the peer side is closed.
    pub closed spec fn spec_closed(&self) -> bool {
        self.closed
    }

    /// A fresh, open channel with empty queues.
    pub fn new() -> (r: Channel)
        ensures
            r.inv(),
            r.spec_outgoing() == Seq::<Frame>::empty(),
            r.spec_incoming() == Seq::<Frame>::empty(),
            !r.spec_closed(),
    {
        let c = Channel { outgoing: Vec::new(), incoming: Vec::new(), closed: false };
        proof {
            assert(c.spec_outgoing() =~= Seq::<Frame>::empty());
            assert(c.spec_incoming() =~= Seq::<Frame>::empty());
        }
        c
    }

    /// Close the peer side: sends fail from now on.
    pub fn close(&mut self)
        requires
            old(self).inv(),
        ensures
            final(self).inv(),
            final(self).spec_closed(),
            final(self).spec_outgoing() == old(self).spec_outgoing(),
            final(self).spec_incoming() == old(self).spec_incoming(),
    {
        self.closed = true;
    }

    /// The peer feeds one frame in.
    pub fn push_incoming(&mut self, frame: Frame)
        requires
            old(self).inv(),
            frame.wf(),
        ensures
            final(self).inv(),
            final(self).spec_incoming() == old(self).spec_incoming().push(frame),
            final(self).spec_outgoing() == old(self).spec_outgoing(),
            final(self).spec_closed() == old(self).spec_closed(),
    {
        self.incoming.push(frame);
    }

    /// The peer takes the oldest sent frame, if any.
    pub fn pop_outgoing(&mut self) -> (r: Option<Frame>)
        requires
            old(self).inv(),
        ensures
            final(self).inv(),
            old(self).spec_outgoing().len() == 0 ==> r is None && *final(self) == *old(self),
            old(self).spec_outgoing().len() > 0 ==> {
                &&& r is Some
                &&& r->0 == old(self).spec_outgoing()[0]
                &&& r->0.wf()
                &&& final(self).spec_outgoing() == old(self).spec_outgoing().skip(1)
            },
            final(self).spec_incoming() == old(self).spec_incoming(),
            final(self).spec_closed() == old(self).spec_closed(),
    {
        if self.outgoing.len() == 0 {
            return None;
        }
        let frame = self.outgoing.remove(0);
        proof {
            assert(self.outgoing@ =~= old(self).outgoing@.skip(1));
        }
        Some(frame)
    }
}

impl DeviceAdaptor for Channel {
    /// The channel's fixed MTU.
    open spec fn spec_mtu(&self, _flag: FrameFlag) -> usize {
        CHANNEL_MTU
    }

    /// Every queued frame is well-formed.
    closed spec fn inv(&self) -> bool {
        &&& forall|i: int| 0 <= i < self.incoming@.len() ==> (#[trigger] self.incoming@[i]).wf()
        &&& forall|i: int| 0 <= i < self.outgoing@.len() ==> (#[trigger] self.outgoing@[i]).wf()
    }

    /// A send appends to the outgoing queue, or fails with `BusError` and
    /// changes nothing when the peer is closed.
    open spec fn send_post(
        pre: Channel,
        frame: Frame,
        post: Channel,
        r: Result<(), DeviceAdaptorError>,
    ) -> bool {
        &&& (r is Err <==> pre.spec_closed())
        &&& (r is Err ==> r->Err_0 is BusError && post == pre)
        &&& (r is Ok ==> {
            &&& post.spec_outgoing() == pre.spec_outgoing().push(frame)
            &&& post.spec_incoming() == pre.spec_incoming()
            &&& !post.spec_closed()
        })
    }

    /// A receive takes the oldest incoming frame, or fails with `Empty` and
    /// changes nothing when there is none.
    open spec fn recv_post(
        pre: Channel,
        post: Channel,
        r: Result<Frame, DeviceAdaptorError>,
    ) -> bool {
        &&& (pre.spec_incoming().len() == 0 ==> r is Err && r->Err_0 is Empty && post == pre)
        &&& (pre.spec_incoming().len() > 0 ==> {
            &&& r is Ok
            &&& r->Ok_0 == pre.spec_incoming()[0]
            &&& post.spec_incoming() == pre.spec_incoming().skip(1)
            &&& post.spec_outgoing() == pre.spec_outgoing()
            &&& post.spec_closed() == pre.spec_closed()
        })
    }

    /// Append one frame to the outgoing queue; `BusError` when the peer is
    /// closed.
    fn send(&mut self, frame: Frame) -> (r: Result<(), DeviceAdaptorError>)
    {
        if self.closed {
            return Err(DeviceAdaptorError::BusError("channel closed".to_owned()));
        }
        self.outgoing.push(frame);
        Ok(())
    }

    /// Take the oldest incoming frame; `Empty` when there is none.
    fn recv(&mut self) -> (r: Result<Frame, DeviceAdaptorError>)
    {
        if self.incoming.len() == 0 {
            return Err(DeviceAdaptorError::Empty);
        }
        let frame = self.incoming.remove(0);
        proof {
            assert(self.incoming@ =~= old(self).incoming@.skip(1));
        }
        Ok(frame)
    }

    /// The channel's fixed MTU.
    fn mtu(&self, _flag: FrameFlag) -> (r: usize)
        ensures
            r == CHANNEL_MTU,
    {
        CHANNEL_MTU
    }
}

} // verus!
