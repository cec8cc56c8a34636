//! The dispatch server: a 256-slot handler table, filled once at
//! construction, and a receive-decode-handle-respond step.
use vstd::prelude::*;

use crate::envelope;
use crate::envelope::{spec_application_of, spec_decode_ok, spec_decoded_meta, spec_decoded_payload};
use crate::error::DeviceAdaptorError;
use crate::frame::Frame as BusFrame;
use crate::frame::{FrameFlag, FrameMeta};

verus! {

/// Number of application handler slots.
pub const MAX_APPLICATION_HANDLER: usize = 256;

/// A bus adaptor as the server sees it: send and receive whole frames, and
/// tell the payload budget.
pub trait DeviceAdaptor: Sized {
    /// The adaptor's own invariant; its operations keep it.
    open spec fn inv(&self) -> bool {
        true
    }

    /// What one `send` call may do: it relates the adaptor before the call
    /// and the frame, to the adaptor afterwards and the result. An adaptor
    /// overrides this with its exact relation.
    open spec fn send_post(
        pre: Self,
        frame: BusFrame,
        post: Self,
        r: Result<(), DeviceAdaptorError>,
    ) -> bool {
        true
    }

    /// What one `recv` call may do: it relates the adaptor before the call
    /// to the adaptor afterwards and the result. An adaptor overrides this
    /// with its exact relation.
    open spec fn recv_post(
        pre: Self,
        post: Self,
        r: Result<BusFrame, DeviceAdaptorError>,
    ) -> bool {
        true
    }

    /// Send one frame to the bus.
    fn send(&mut self, frame: BusFrame) -> (r: Result<(), DeviceAdaptorError>)
        requires
            old(self).inv(),
            frame.wf(),
        ensures
            final(self).inv(),
            Self::send_post(*old(self), frame, *final(self), r),
    ;

    /// Receive one frame from the bus; `Empty` when none is available.
    fn recv(&mut self) -> (r: Result<BusFrame, DeviceAdaptorError>)
        requires
            old(self).inv(),
        ensures
            final(self).inv(),
            r is Ok ==> r->Ok_0.wf(),
            Self::recv_post(*old(self), *final(self), r),
    ;

    /// The payload budget `mtu` answers with; an adaptor overrides this
    /// alongside `mtu`.
    open spec fn spec_mtu(&self, flag: FrameFlag) -> usize {
        150
    }

    /// The payload budget of one logical transmission, under the given flags.
    fn mtu(&self, flag: FrameFlag) -> (r: usize)
        ensures
            r == self.spec_mtu(flag),
            2 <= r <= 0xffff,
    ;
}

/// An application handler: it claims one application ID, carries a human
/// name, and turns one request frame into an optional response frame.
pub trait Application: Sized {
    /// The handler's own invariant; `handle` keeps it.
    open spec fn inv(&self) -> bool {
        true
    }

    /// The application ID this handler claims; a handler overrides this
    /// alongside `application_id`.
    open spec fn spec_application_id(&self) -> u8 {
        0
    }

    /// The human name of this handler; a handler overrides this alongside
    /// `application_name`.
    open spec fn spec_application_name(&self) -> Seq<char> {
        Seq::<char>::empty()
    }

    /// The application ID this handler claims.
    fn application_id(&self) -> (r: u8)
        ensures
            r == self.spec_application_id(),
    ;

    /// The human name of this handler.
    fn application_name(&self) -> (r: &'static str)
        ensures
            r@ == self.spec_application_name(),
    ;

    /// What one `handle` call may do: it relates the handler before the
    /// call, the request and the budget, to the handler afterwards and the
    /// result. A handler overrides this with its exact relation, so that the
    /// dispatch step's contract carries the handler's answer.
    open spec fn handle_post(
        pre: Self,
        frame: envelope::Frame,
        mtu: u16,
        post: Self,
        r: Result<Option<envelope::Frame>, DeviceAdaptorError>,
    ) -> bool {
        true
    }

    /// Handle one request frame, its envelope header already removed; a
    /// response frame, if any, is sent back with the envelope re-added.
    /// `mtu` is the response payload budget.
    fn handle(&mut self, frame: &envelope::Frame, mtu: u16) -> (r: Result<
        Option<envelope::Frame>,
        DeviceAdaptorError,
    >)
        requires
            old(self).inv(),
            frame.wf(),
        ensures
            final(self).inv(),
            r is Ok && r->Ok_0 is Some ==> r->Ok_0->0.wf(),
            Self::handle_post(*old(self), *frame, mtu, *final(self), r),
    ;
}

/// A request/reply side channel to a coresident process, used by a few
/// handlers to forward collected payloads. Nothing is promised of the reply.
pub trait Fallback {
    /// Send `msg` and wait (bounded) for the reply.
    fn fallback(&mut self, msg: Vec<u8>) -> Result<Vec<u8>, DeviceAdaptorError>;
}

/// The error of constructing a server whose handlers claim the same
/// application ID; it carries the claimed ID and both handlers' names.
pub struct DuplicateApplicationId {
    /// The application ID claimed twice.
    pub id: u8,
    /// The name of the handler that claimed the ID first.
    pub first: String,
    /// The name of the handler that claimed it again.
    pub second: String,
}

impl DuplicateApplicationId {
    /// The application ID claimed twice.
    pub fn id(&self) -> (r: u8)
        ensures
            r == self.id,
    {
        self.id
    }

    /// The name of the handler that claimed the ID first.
    pub fn first_name(&self) -> (r: &String)
        ensures
            r@ == self.first@,
    {
        &self.first
    }

    /// The name of the handler that claimed the ID again.
    pub fn second_name(&self) -> (r: &String)
        ensures
            r@ == self.second@,
    {
        &self.second
    }
}

/// How the dispatch step's result arises from a handler's answer `hr`: an
/// error is handed through unchanged; no response stays no response; a
/// response frame is encoded for the adaptor as `envelope::Frame::into_bus`
/// does, and an encode failure is a frame error.
pub open spec fn spec_encoded_response(
    hr: Result<Option<envelope::Frame>, DeviceAdaptorError>,
    r: Result<Option<BusFrame>, DeviceAdaptorError>,
) -> bool {
    match hr {
        Result::Err(e) => r == Result::<Option<BusFrame>, DeviceAdaptorError>::Err(e),
        Result::Ok(resp_opt) => match resp_opt {
            Option::None => r is Ok && r->Ok_0 is None,
            Option::Some(resp) => {
                if resp.hdr_inserted {
                    r is Ok && r->Ok_0 is Some && r->Ok_0->0 == resp.bus_frame
                } else if resp.bus_frame.offset >= 2 {
                    let out = r->Ok_0->0;
                    &&& r is Ok
                    &&& r->Ok_0 is Some
                    &&& out.wf()
                    &&& out.payload() == seq![envelope::VERSION_ID, resp.application_id]
                        + resp.bus_frame.payload()
                    &&& out.meta == (FrameMeta {
                        len: (resp.bus_frame.meta.len + 2) as u16,
                        ..resp.bus_frame.meta
                    })
                    &&& out.offset == resp.bus_frame.offset - 2
                    &&& out.data@.len() == resp.bus_frame.data@.len()
                } else {
                    r is Err && r->Err_0 is FrameError
                }
            },
        },
    }
}

/// The whole effect of one dispatch step on the handler table
/// (`apps0` to `apps1`) and the not-found counter (`cnt0` to `cnt1`), for one
/// bus frame and one response budget: an undecodable frame changes nothing
/// and is a frame error; a frame naming an absent handler only bumps the
/// counter; otherwise exactly the addressed handler runs, under its own
/// `handle_post` relation, and its answer is encoded as
/// `spec_encoded_response` says.
pub open spec fn spec_dispatch_post<H: Application>(
    apps0: Seq<Option<H>>,
    cnt0: u64,
    budget: u16,
    bus_frame: BusFrame,
    apps1: Seq<Option<H>>,
    cnt1: u64,
    r: Result<Option<BusFrame>, DeviceAdaptorError>,
) -> bool {
    &&& (!spec_decode_ok(bus_frame) ==> {
        &&& r is Err
        &&& r->Err_0 is FrameError
        &&& apps1 == apps0
        &&& cnt1 == cnt0
    })
    &&& (spec_decode_ok(bus_frame) ==> {
        let app = spec_application_of(bus_frame) as int;
        if apps0[app] is None {
            &&& r is Ok
            &&& r->Ok_0 is None
            &&& apps1 == apps0
            &&& cnt1 == (if cnt0 < u64::MAX {
                cnt0 + 1
            } else {
                cnt0 as int
            })
        } else {
            &&& cnt1 == cnt0
            &&& apps1[app] is Some
            &&& (forall|d: int| 0 <= d < apps0.len() && d != app ==> apps1[d] == apps0[d])
            &&& (r is Ok && r->Ok_0 is Some ==> r->Ok_0->0.wf())
            &&& ({
                let pre = apps0[app]->0;
                exists|f: envelope::Frame, post: H, hr: Result<
                    Option<envelope::Frame>,
                    DeviceAdaptorError,
                >|
                    {
                        &&& f.wf()
                        &&& !f.hdr_inserted
                        &&& f.application_id == spec_application_of(bus_frame)
                        &&& f.bus_frame.payload() == spec_decoded_payload(bus_frame)
                        &&& f.bus_frame.meta == spec_decoded_meta(bus_frame)
                        &&& #[trigger] H::handle_post(pre, f, budget, post, hr)
                        &&& apps1[app] == Some(post)
                        &&& spec_encoded_response(hr, r)
                    }
            })
        }
    })
}

/// The dispatch server: one adaptor and a read-only handler table, plus a
/// counter of frames addressed to an absent handler.
pub struct TcspServer<D, H> {
    adaptor: D,
    applications: Vec<Option<H>>,
    not_found_count: u64,
}

impl<D: DeviceAdaptor, H: Application> TcspServer<D, H> {
    /// Well-formedness: one slot per possible application ID, and the
    /// adaptor's own invariant.
    pub closed spec fn wf(&self) -> bool {
        &&& self.applications@.len() == MAX_APPLICATION_HANDLER
        &&& self.adaptor.inv()
        &&& forall|d: int|
            0 <= d < self.applications@.len() && self.applications@[d] is Some ==> (
            #[trigger] self.applications@[d])->0.inv()
    }

    /// The handler table.
    pub closed spec fn spec_applications(&self) -> Seq<Option<H>> {
        self.applications@
    }

    /// The adaptor.
    pub closed spec fn spec_adaptor(&self) -> D {
        self.adaptor
    }

    /// How many frames were addressed to an absent handler.
    pub closed spec fn spec_not_found_count(&self) -> u64 {
        self.not_found_count
    }

    /// Take the server apart, handing its adaptor back; tests read the
    /// channel adaptor's queues this way.
    pub fn into_adaptor(self) -> (r: D)
        ensures
            r == self.spec_adaptor(),
    {
        self.adaptor
    }

    /// How many frames were addressed to an absent handler.
    pub fn not_found_count(&self) -> (r: u64)
        ensures
            r == self.spec_not_found_count(),
    {
        self.not_found_count
    }

    /// Build a server from an adaptor and a list of handlers, indexing each
    /// handler by the application ID it claims. Two handlers claiming the
    /// same ID are a configuration error naming both handlers.
    #[verifier::loop_isolation(false)]
    pub fn build(adaptor: D, applications: Vec<H>) -> (r: Result<
        TcspServer<D, H>,
        DuplicateApplicationId,
    >)
        requires
            adaptor.inv(),
            forall|i: int| 0 <= i < applications@.len() ==> (#[trigger] applications@[i]).inv(),
        ensures
            r is Ok <==> (forall|i: int, j: int|
                0 <= i < j < applications@.len() ==> applications@[i].spec_application_id()
                    != applications@[j].spec_application_id()),
            r is Ok ==> {
                let s = r->Ok_0;
                &&& s.wf()
                &&& s.spec_not_found_count() == 0
                &&& s.spec_adaptor() == adaptor
                &&& forall|i: int|
                    0 <= i < applications@.len() ==> s.spec_applications()[(
                    #[trigger] applications@[i].spec_application_id()) as int] == Some(
                        applications@[i],
                    )
                &&& forall|d: int|
                    0 <= d < MAX_APPLICATION_HANDLER && (forall|i: int|
                        0 <= i < applications@.len() ==> (#[trigger] applications@[i].spec_application_id())
                            != d) ==> s.spec_applications()[d] is None
            },
            r is Err ==> {
                let e = r->Err_0;
                exists|i: int, j: int|
                    0 <= i < j < applications@.len()
                        && (#[trigger] applications@[i].spec_application_id()) == (
                    #[trigger] applications@[j].spec_application_id())
                        && e.id == applications@[j].spec_application_id() && e.first@
                        == applications@[i].spec_application_name() && e.second@
                        == applications@[j].spec_application_name()
            },
    {
        let ghost orig = applications@;
        let total = applications.len();
        let mut table: Vec<Option<H>> = Vec::new();
        let mut k: usize = 0;
        while k < MAX_APPLICATION_HANDLER
            invariant
                k <= MAX_APPLICATION_HANDLER,
                table@.len() == k,
                forall|d: int| 0 <= d < k ==> table@[d] is None,
            decreases MAX_APPLICATION_HANDLER - k,
        {
            table.push(None);
            k += 1;
        }
        let mut apps = applications;
        let mut n: usize = 0;
        while apps.len() > 0
            invariant
                n + apps@.len() == orig.len(),
                apps@ == orig.skip(n as int),
                table@.len() == MAX_APPLICATION_HANDLER,
                forall|i: int, j: int|
                    0 <= i < j < n ==> orig[i].spec_application_id()
                        != orig[j].spec_application_id(),
                forall|i: int|
                    0 <= i < n ==> table@[(#[trigger] orig[i].spec_application_id()) as int]
                        == Some(orig[i]),
                forall|d: int|
                    0 <= d < MAX_APPLICATION_HANDLER && (forall|i: int|
                        0 <= i < n ==> (#[trigger] orig[i].spec_application_id()) != d)
                        ==> table@[d] is None,
                forall|d: int|
                    0 <= d < table@.len() && table@[d] is Some ==> (#[trigger] table@[d])->0.inv(),
            decreases apps@.len(),
        {
            let app = apps.remove(0);
            proof {
                assert(app == orig[n as int]);
                assert(apps@ =~= orig.skip(n as int + 1));
            }
            let id = app.application_id() as usize;
            let ghost table0 = table@;
            let mut slot: Option<H> = None;
            table.set_and_swap(id, &mut slot);
            match slot {
                Some(previous) => {
                    let first = previous.application_name().to_owned();
                    let second = app.application_name().to_owned();
                    proof {
                        let idd = app.spec_application_id();
                        assert(table0[idd as int] == Some(previous));
                        assert(exists|k: int|
                            0 <= k < n && (#[trigger] orig[k].spec_application_id()) == idd) by {
                            if forall|k: int|
                                0 <= k < n ==> (#[trigger] orig[k].spec_application_id()) != idd {
                                assert(table0[idd as int] is None);
                                assert(false);
                            }
                        }
                        let k = choose|k: int|
                            0 <= k < n && (#[trigger] orig[k].spec_application_id()) == idd;
                        assert(table0[orig[k].spec_application_id() as int] == Some(orig[k]));
                        assert(previous == orig[k]);
                        assert(0 <= k < n < orig.len());
                        assert(orig[k].spec_application_id() == orig[n as int].spec_application_id());
                        assert(first@ == orig[k].spec_application_name());
                        assert(second@ == orig[n as int].spec_application_name());
                        assert(id as u8 == orig[n as int].spec_application_id());
                        assert(exists|i: int, j: int|
                            0 <= i < j < orig.len() && (#[trigger] orig[i].spec_application_id())
                                == (#[trigger] orig[j].spec_application_id()) && id as u8
                                == orig[j].spec_application_id() && first@
                                == orig[i].spec_application_name() && second@
                                == orig[j].spec_application_name());
                    }
                    return Err(DuplicateApplicationId { id: id as u8, first, second });
                },
                None => {
                    table.set(id, Some(app));
                    proof {
                        assert(table@ =~= table0.update(id as int, Some(app)));
                        assert forall|i: int| 0 <= i < n + 1 implies table@[(
                        #[trigger] orig[i].spec_application_id()) as int] == Some(orig[i]) by {
                            if i < n {
                                assert(table0[orig[i].spec_application_id() as int] == Some(
                                    orig[i],
                                ));
                                assert(orig[i].spec_application_id() != app.spec_application_id());
                            }
                        }
                    }
                },
            }
            proof {
                assert(n < total);
            }
            n += 1;
        }
        proof {
            assert(orig.skip(orig.len() as int).len() == 0);
        }
        Ok(TcspServer { adaptor, applications: table, not_found_count: 0 })
    }

    /// Decode one bus frame, hand it to the one handler its application ID
    /// names, and encode the handler's response for the adaptor.
    ///
    /// Exactly one handler is consulted per decoded frame: every other table
    /// slot is left untouched. A frame naming an absent handler only
    /// increments the not-found counter.
    pub fn dispatch_frame(&mut self, bus_frame: BusFrame) -> (r: Result<
        Option<BusFrame>,
        DeviceAdaptorError,
    >)
        requires
            old(self).wf(),
            bus_frame.wf(),
        ensures
            final(self).wf(),
            final(self).spec_adaptor() == old(self).spec_adaptor(),
            !spec_decode_ok(bus_frame) ==> r is Err && *final(self) == *old(self),
            spec_dispatch_post::<H>(
                old(self).spec_applications(),
                old(self).spec_not_found_count(),
                ((old(self).spec_adaptor().spec_mtu(bus_frame.meta.flag) - 2) as u16),
                bus_frame,
                final(self).spec_applications(),
                final(self).spec_not_found_count(),
                r,
            ),
    {
        let ghost gbus = bus_frame;
        let mtu_flag = bus_frame.meta.flag;
        let frame = envelope::Frame::from_bus(bus_frame)?;
        let mtu = (self.adaptor.mtu(mtu_flag) - 2) as u16;
        let application_id = frame.application() as usize;
        let mut slot: Option<H> = None;
        self.applications.set_and_swap(application_id, &mut slot);
        match slot {
            None => {
                proof {
                    assert(self.applications@ =~= old(self).applications@);
                }
                if self.not_found_count < u64::MAX {
                    self.not_found_count = self.not_found_count + 1;
                }
                Ok(None)
            },
            Some(mut handler) => {
                let ghost pre_handler = handler;
                let ghost request = frame;
                let response = handler.handle(&frame, mtu);
                let ghost post_handler = handler;
                let ghost answer = response;
                self.applications.set(application_id, Some(handler));
                let result: Result<Option<BusFrame>, DeviceAdaptorError> = match response {
                    Ok(Some(resp)) => {
                        match resp.into_bus() {
                            Ok(out) => Ok(Some(out)),
                            Err(e) => Err(e),
                        }
                    },
                    Ok(None) => Ok(None),
                    Err(e) => Err(e),
                };
                proof {
                    assert(spec_encoded_response(answer, result));
                    assert(pre_handler == old(self).spec_applications()[spec_application_of(gbus)
                        as int]->0);
                    assert(mtu == ((old(self).spec_adaptor().spec_mtu(gbus.meta.flag) - 2) as u16));
                    assert(H::handle_post(
                        old(self).spec_applications()[spec_application_of(gbus) as int]->0,
                        request,
                        ((old(self).spec_adaptor().spec_mtu(gbus.meta.flag) - 2) as u16),
                        post_handler,
                        answer,
                    ));
                    assert(self.spec_applications()[spec_application_of(gbus) as int] == Some(
                        post_handler,
                    ));
                }
                result
            },
        }
    }

    /// One step of the server loop: receive one frame from the adaptor,
    /// dispatch it, and send the response, if any, back through the adaptor.
    ///
    /// An empty poll is absorbed, never surfaced: the loop simply runs again.
    /// One step consults at most one handler slot, the not-found counter
    /// grows by at most one, and the whole step is the chain of one receive
    /// (`recv_post`), one dispatch (`spec_dispatch_post`) and, for a
    /// response, one send (`send_post`), as `spec_server_step` says.
    pub fn handle(&mut self) -> (r: Result<(), DeviceAdaptorError>)
        requires
            old(self).wf(),
        ensures
            final(self).wf(),
            r is Err ==> !(r->Err_0 is Empty),
            old(self).spec_not_found_count() <= final(self).spec_not_found_count(),
            final(self).spec_not_found_count() <= old(self).spec_not_found_count() + 1,
            forall|i: int, j: int|
                0 <= i < j < MAX_APPLICATION_HANDLER ==> ((#[trigger] final(self)
                    .spec_applications()[i]) == old(self).spec_applications()[i] || (
                #[trigger] final(self).spec_applications()[j])
                    == old(self).spec_applications()[j]),
            exists|mid: D, rv: Result<BusFrame, DeviceAdaptorError>|
                {
                    &&& #[trigger] D::recv_post(old(self).spec_adaptor(), mid, rv)
                    &&& spec_server_step::<D, H>(
                        old(self).spec_applications(),
                        old(self).spec_not_found_count(),
                        mid,
                        rv,
                        final(self).spec_applications(),
                        final(self).spec_not_found_count(),
                        final(self).spec_adaptor(),
                        r,
                    )
                },
    {
        let received = self.adaptor.recv();
        let ghost mid = self.adaptor;
        let ghost grv = received;
        proof {
            assert(D::recv_post(old(self).spec_adaptor(), mid, grv));
        }
        match received {
            Ok(bus_frame) => {
                let ghost gbf = bus_frame;
                let dispatched = self.dispatch_frame(bus_frame);
                let ghost gr1 = dispatched;
                proof {
                    assert(spec_dispatch_post::<H>(
                        old(self).spec_applications(),
                        old(self).spec_not_found_count(),
                        ((mid.spec_mtu(gbf.meta.flag) - 2) as u16),
                        gbf,
                        self.spec_applications(),
                        self.spec_not_found_count(),
                        gr1,
                    ));
                }
                match dispatched {
                    Ok(Some(resp)) => {
                        let ghost gout = resp;
                        let sent = self.adaptor.send(resp);
                        let ghost fin = self.adaptor;
                        let ghost gsr = sent;
                        proof {
                            assert(D::send_post(mid, gout, fin, gsr));
                        }
                        let res: Result<(), DeviceAdaptorError> = match sent {
                            Ok(()) => Ok(()),
                            Err(e) => {
                                if e.is_empty() {
                                    Ok(())
                                } else {
                                    Err(e)
                                }
                            },
                        };
                        proof {
                            assert(spec_sent_step::<D>(mid, gout, self.spec_adaptor(), res));
                            assert(spec_server_step::<D, H>(
                                old(self).spec_applications(),
                                old(self).spec_not_found_count(),
                                mid,
                                grv,
                                self.spec_applications(),
                                self.spec_not_found_count(),
                                self.spec_adaptor(),
                                res,
                            ));
                        }
                        res
                    },
                    Ok(None) => {
                        proof {
                            assert(spec_server_step::<D, H>(
                                old(self).spec_applications(),
                                old(self).spec_not_found_count(),
                                mid,
                                grv,
                                self.spec_applications(),
                                self.spec_not_found_count(),
                                self.spec_adaptor(),
                                Result::<(), DeviceAdaptorError>::Ok(()),
                            ));
                        }
                        Ok(())
                    },
                    Err(e) => {
                        let res: Result<(), DeviceAdaptorError> = if e.is_empty() {
                            Ok(())
                        } else {
                            Err(e)
                        };
                        proof {
                            assert(spec_server_step::<D, H>(
                                old(self).spec_applications(),
                                old(self).spec_not_found_count(),
                                mid,
                                grv,
                                self.spec_applications(),
                                self.spec_not_found_count(),
                                self.spec_adaptor(),
                                res,
                            ));
                        }
                        res
                    },
                }
            },
            Err(e) => {
                let res: Result<(), DeviceAdaptorError> = if e.is_empty() {
                    Ok(())
                } else {
                    Err(e)
                };
                proof {
                    assert(spec_server_step::<D, H>(
                        old(self).spec_applications(),
                        old(self).spec_not_found_count(),
                        mid,
                        grv,
                        self.spec_applications(),
                        self.spec_not_found_count(),
                        self.spec_adaptor(),
                        res,
                    ));
                }
                res
            },
        }
    }
}

/// How a server step ends once the response frame `out` is handed to the
/// adaptor: one `send_post`-related call, whose `Empty` failure is absorbed
/// and whose other failure is the step's result.
pub open spec fn spec_sent_step<D: DeviceAdaptor>(
    mid: D,
    out: BusFrame,
    fin: D,
    r: Result<(), DeviceAdaptorError>,
) -> bool {
    exists|sr: Result<(), DeviceAdaptorError>|
        {
            &&& #[trigger] D::send_post(mid, out, fin, sr)
            &&& match sr {
                Result::Ok(u) => r is Ok,
                Result::Err(e2) => {
                    &&& (e2 is Empty ==> r is Ok)
                    &&& (!(e2 is Empty) ==> r == Result::<(), DeviceAdaptorError>::Err(e2))
                },
            }
        }
}

/// One whole server step after the receive: a failed receive leaves the
/// table and counter alone (an `Empty` poll absorbed); a received frame goes
/// through one dispatch (`spec_dispatch_post`), and its response, if any,
/// through one send (`spec_sent_step`).
pub open spec fn spec_server_step<D: DeviceAdaptor, H: Application>(
    apps0: Seq<Option<H>>,
    cnt0: u64,
    mid: D,
    rv: Result<BusFrame, DeviceAdaptorError>,
    apps1: Seq<Option<H>>,
    cnt1: u64,
    fin: D,
    r: Result<(), DeviceAdaptorError>,
) -> bool {
    match rv {
        Result::Err(e) => {
            &&& fin == mid
            &&& apps1 == apps0
            &&& cnt1 == cnt0
            &&& (e is Empty ==> r is Ok)
            &&& (!(e is Empty) ==> r == Result::<(), DeviceAdaptorError>::Err(e))
        },
        Result::Ok(bf) => exists|r1: Result<Option<BusFrame>, DeviceAdaptorError>|
            {
                &&& #[trigger] spec_dispatch_post::<H>(
                    apps0,
                    cnt0,
                    ((mid.spec_mtu(bf.meta.flag) - 2) as u16),
                    bf,
                    apps1,
                    cnt1,
                    r1,
                )
                &&& match r1 {
                    Result::Err(e1) => {
                        &&& fin == mid
                        &&& (e1 is Empty ==> r is Ok)
                        &&& (!(e1 is Empty) ==> r == Result::<(), DeviceAdaptorError>::Err(e1))
                    },
                    Result::Ok(out_opt) => match out_opt {
                        Option::None => fin == mid && r is Ok,
                        Option::Some(out) => spec_sent_step::<D>(mid, out, fin, r),
                    },
                }
            },
    }
}

/// The server builder: one adaptor and the handlers added so far./// The server builder: one adaptor and the handlers added so far.
pub struct TcspServerBuilder<A, H> {
    /// The adaptor the server will own.
    pub adaptor: A,
    /// The handlers added so far.
    pub applications: Vec<H>,
}

impl<A: DeviceAdaptor, H: Application> TcspServerBuilder<A, H> {
    /// A builder around `adaptor` with no handlers yet.
    pub fn new(adaptor: A) -> (r: TcspServerBuilder<A, H>)
        ensures
            r.adaptor == adaptor,
            r.applications@.len() == 0,
    {
        TcspServerBuilder { adaptor, applications: Vec::new() }
    }

    /// Add one application handler.
    pub fn with_application(self, application: H) -> (r: TcspServerBuilder<A, H>)
        ensures
            r.adaptor == self.adaptor,
            r.applications@ == self.applications@.push(application),
    {
        let mut this = self;
        this.applications.push(application);
        this
    }

    /// Build the server; duplicate application IDs are a configuration
    /// error, as `TcspServer::build` states.
    pub fn build(self) -> (r: Result<TcspServer<A, H>, DuplicateApplicationId>)
        requires
            self.adaptor.inv(),
            forall|i: int|
                0 <= i < self.applications@.len() ==> (#[trigger] self.applications@[i]).inv(),
        ensures
            r is Ok <==> (forall|i: int, j: int|
                0 <= i < j < self.applications@.len()
                    ==> self.applications@[i].spec_application_id()
                    != self.applications@[j].spec_application_id()),
            r is Ok ==> r->Ok_0.wf() && r->Ok_0.spec_not_found_count() == 0,
    {
        TcspServer::build(self.adaptor, self.applications)
    }
}

} // verus!
