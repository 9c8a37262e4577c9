//! The CWMP session driver: one inbound HTTP session from the initial
//! Inform to the clean close, interleaving CPE-initiated events with queued
//! ACS work.
//!
//! The HTTP legs are I/O and live outside the library; the driver here is
//! the decision kernel. The caller feeds it each POST's parsed body and
//! performs the returned response; on connection close or transport failure
//! it calls `on_close`.
//!
//! Transfers are dispatched in enqueue order: each poll serves the oldest
//! pending transfer, and each reply is routed to exactly the transfer it
//! answers.

use vstd::prelude::*;
use vstd::string::StringExecFns;
use crate::AcsError;
use crate::acs::{Acs, lemma_index_of_serial_is, register_serial};
use crate::cpe::CPE;
use crate::soap::{DeviceId, Envelope, Rpc};
use crate::transfer::{Transfer, observer_send};

verus! {

/// The states of one inbound CWMP session.
#[derive(Clone, Copy, Debug, PartialEq, Eq, Structural)]
pub enum SessionState {
    /// HTTP session accepted; the first request must be an Inform.
    AwaitingInform,
    /// InformResponse sent; the handshake completes on the next POST.
    PostInform,
    /// Reading the CPE's next POST: a CPE-initiated RPC or an empty poll.
    Draining,
    /// A dequeued request envelope was sent; its answer is the next POST.
    AwaitingResponse,
    /// The empty `204` was sent; waiting for the connection to close.
    Closing,
    /// Terminal.
    Closed,
}

/// The body of one HTTP POST from the CPE: a SOAP envelope, or empty — the
/// CPE polling for ACS work.
pub enum PostBody {
    Empty,
    Rpc(Envelope),
}

/// What the driver answers to one POST: an envelope, or the empty
/// `204 No Content` that signals session end.
pub enum SessionAction {
    Respond(Envelope),
    Respond204,
}

/// The outcome of serving a poll slot from the queue `pend0`: either the
/// oldest pending transfer was dispatched and awaits its answer, or the
/// empty queue was answered `204` and the session is closing. `pend1` is
/// the queue afterwards.
pub open spec fn drained(post: Session, pend0: Seq<Transfer>, pend1: Seq<Transfer>, a: SessionAction) -> bool {
    if pend0.len() == 0 {
        &&& a is Respond204
        &&& post.state is Closing
        &&& pend1 == pend0
    } else {
        &&& a == (SessionAction::Respond(pend0[0].msg))
        &&& post.state is AwaitingResponse
        &&& post.outstanding_id == pend0[0].msg.id
        &&& post.outstanding_req@ == Some(pend0[0].msg)
        &&& post.outstanding_observer == pend0[0].observer
        &&& pend1 == pend0.drop_first()
    }
}

/// The driver of one inbound CWMP session.
pub struct Session {
    pub state: SessionState,
    /// The registry key of the entry this session is attached to; meaningful
    /// once attached.
    pub serial: String,
    /// The `id` header of the request envelope awaiting its answer; only
    /// meaningful in `AwaitingResponse`.
    pub outstanding_id: u64,
    /// The reply channel of the in-flight transfer, if its requester kept
    /// one.
    pub outstanding_observer: Option<tokio::sync::mpsc::Sender<Envelope>>,
    /// The request envelope awaiting its answer.
    pub outstanding_req: Ghost<Option<Envelope>>,
    /// Every `(request, reply)` pair this session has routed towards an
    /// observer, in dispatch order.
    pub replies: Ghost<Seq<(Envelope, Envelope)>>,
}

impl Session {
    /// Attached: the session holds a reference on its entry.
    pub open spec fn attached(self) -> bool {
        ||| self.state is PostInform
        ||| self.state is Draining
        ||| self.state is AwaitingResponse
        ||| self.state is Closing
    }

    /// Every routed reply answers exactly the request it was dequeued for.
    pub open spec fn replies_correlated(self) -> bool {
        forall|i: int|
            0 <= i < self.replies@.len()
                ==> (#[trigger] self.replies@[i]).1.id == self.replies@[i].0.id
    }

    /// Well-formedness: in `AwaitingResponse` the in-flight request is known
    /// and `outstanding_id` is its `id`; all routed replies are correlated.
    pub open spec fn wf(self) -> bool {
        &&& self.state is AwaitingResponse ==> {
            &&& self.outstanding_req@ is Some
            &&& self.outstanding_req@.unwrap().id == self.outstanding_id
        }
        &&& self.replies_correlated()
    }

    /// A fresh driver for a just-accepted HTTP session.
    pub fn new() -> (r: Session)
        ensures
            r.wf(),
            r.state is AwaitingInform,
            r.replies@ == Seq::<(Envelope, Envelope)>::empty(),
    {
        Session {
            state: SessionState::AwaitingInform,
            serial: String::new(),
            outstanding_id: 0,
            outstanding_observer: None,
            outstanding_req: Ghost(None),
            replies: Ghost(Seq::empty()),
        }
    }

    /// First request on the session: it must be a CWMP Inform, else the
    /// session terminates with a protocol error and no entry is touched.
    ///
    /// On a valid Inform the driver extracts the device identity and the
    /// Connection Request URL, looks the entry up by serial — inserting a
    /// fresh one on first contact; serial is authoritative — acquires a
    /// session reference, records the base URL the CPE used to reach the
    /// ACS, and answers with an InformResponse carrying the Inform's `id`.
    /// Pending transfers queued before or between sessions are preserved.
    pub fn on_inform(&mut self, acs: &mut Acs, inform: &Envelope, baseurl: &str) -> (r: Result<Envelope, AcsError>)
        requires
            old(self).state is AwaitingInform,
            old(self).wf(),
            old(acs).wf(),
            forall|j: int| 0 <= j < old(acs).cpe_list@.len()
                ==> (#[trigger] old(acs).cpe_list@[j]).session_refs < u64::MAX,
        ensures
            final(self).wf(),
            final(acs).wf(),
            final(self).replies == old(self).replies,
            !(inform.rpc is Inform) ==> {
                &&& r == Err::<Envelope, AcsError>(AcsError::ProtocolError)
                &&& final(self).state is Closed
                &&& *final(acs) == *old(acs)
            },
            inform.rpc matches Rpc::Inform { device_id, connreq_url } ==> {
                let s = device_id.serial_number@;
                let known = old(acs).contains_serial(s);
                let entry = final(acs).entry_of(s);
                &&& r == Ok::<Envelope, AcsError>((Envelope { id: inform.id, rpc: Rpc::InformResponse }))
                &&& final(self).state is PostInform
                &&& final(self).serial@ == s
                &&& final(acs).contains_serial(s)
                &&& final(acs).serials() == register_serial(old(acs).serials(), s)
                &&& final(acs).config == old(acs).config
                &&& final(acs).basicauth == old(acs).basicauth
                &&& final(acs).acsdir == old(acs).acsdir
                &&& entry.serial() == s
                &&& entry.device_id.manufacturer@ == device_id.manufacturer@
                &&& entry.device_id.oui@ == device_id.oui@
                &&& entry.device_id.product_class@ == device_id.product_class@
                &&& entry.connreq.url@ == connreq_url@
                &&& entry.baseurl@ == baseurl@
                &&& entry.session_refs == (if known {
                    old(acs).entry_of(s).session_refs + 1
                } else {
                    1int
                })
                &&& entry.controller_refs == (if known {
                    old(acs).entry_of(s).controller_refs as int
                } else {
                    0int
                })
                &&& entry.pending() == (if known {
                    old(acs).entry_of(s).pending()
                } else {
                    Seq::<Transfer>::empty()
                })
                &&& entry.connreq.username@ == (if known {
                    old(acs).entry_of(s).connreq.username@
                } else {
                    "acsrs"@
                })
                &&& entry.connreq.password@ == (if known {
                    old(acs).entry_of(s).connreq.password@
                } else {
                    entry.connreq.password@
                })
                &&& (if known {
                    entry.connreq.password@ == old(acs).entry_of(s).connreq.password@
                } else {
                    entry.connreq.password@.len() == 32
                })
                &&& forall|j: int|
                    0 <= j < old(acs).cpe_list@.len() && old(acs).cpe_list@[j].serial() != s
                        ==> final(acs).cpe_list@[j] == old(acs).cpe_list@[j]
                &&& final(acs).cpe_list@.len() ==
                    (if known { old(acs).cpe_list@.len() } else { old(acs).cpe_list@.len() + 1 })
            },
    {
        match &inform.rpc {
            Rpc::Inform { device_id, connreq_url } => {
                let i = acs.lookup_or_insert(&device_id.serial_number);
                let ghost mid = *acs;
                let mut entry = acs.cpe_list.remove(i);
                entry.device_id = DeviceId {
                    manufacturer: device_id.manufacturer.clone(),
                    oui: device_id.oui.clone(),
                    product_class: device_id.product_class.clone(),
                    serial_number: device_id.serial_number.clone(),
                };
                entry.connreq.url = connreq_url.clone();
                entry.baseurl = String::from_str(baseurl);
                entry.session_refs = entry.session_refs + 1;
                acs.cpe_list.insert(i, entry);
                self.serial = device_id.serial_number.clone();
                self.state = SessionState::PostInform;
                proof {
                    let s = device_id.serial_number@;
                    assert(acs.cpe_list@ =~= mid.cpe_list@.update(i as int, acs.cpe_list@[i as int]));
                    assert(acs.cpe_list@[i as int].serial() == s);
                    assert(acs.serials() =~= mid.serials());
                    lemma_index_of_serial_is(*acs, s, i as int);
                    lemma_index_of_serial_is(mid, s, i as int);
                    if old(acs).contains_serial(s) {
                        lemma_index_of_serial_is(*old(acs), s, i as int);
                    }
                }
                Ok(Envelope { id: inform.id, rpc: Rpc::InformResponse })
            },
            _ => {
                self.state = SessionState::Closed;
                Err(AcsError::ProtocolError)
            },
        }
    }

    /// Terminate the session on a protocol violation: release the session
    /// reference, close the in-flight observer without a reply, keep queued
    /// transfers queued.
    fn abort(&mut self, entry: &mut CPE)
        requires
            old(entry).session_refs >= 1,
            old(self).replies_correlated(),
        ensures
            final(self).state is Closed,
            final(self).serial == old(self).serial,
            final(self).replies == old(self).replies,
            final(self).outstanding_observer is None,
            final(self).wf(),
            final(entry).session_refs == old(entry).session_refs - 1,
            final(entry).controller_refs == old(entry).controller_refs,
            final(entry).device_id == old(entry).device_id,
            final(entry).connreq == old(entry).connreq,
            final(entry).baseurl == old(entry).baseurl,
            final(entry).pending() == old(entry).pending(),
    {
        entry.session_refs = entry.session_refs - 1;
        self.outstanding_observer = None;
        self.outstanding_req = Ghost(None);
        self.state = SessionState::Closed;
    }

    /// One POST from the CPE after the Inform handshake.
    ///
    /// In `PostInform` and `Draining`: a non-empty body is a CPE-initiated
    /// RPC and is answered with its matching response envelope; an empty
    /// body is a poll for ACS work, served from the front of the queue, or
    /// answered `204` (entering `Closing`) when the queue is empty.
    ///
    /// In `AwaitingResponse`: the body is the CPE's answer to the in-flight
    /// request. A well-formed envelope whose `id` matches is routed to the
    /// transfer's observer — a CWMP Fault among them, delivered intact, and
    /// a dropped observer silently tolerated — and the driver proceeds as on
    /// an empty poll. Anything else is a protocol violation.
    ///
    /// On a protocol violation the session terminates: the session reference
    /// is released, the in-flight observer (if any) is closed without a
    /// reply, and queued transfers remain queued for the next session.
    pub fn on_post(&mut self, acs: &mut Acs, body: PostBody) -> (r: Result<SessionAction, AcsError>)
        requires
            old(self).wf(),
            old(acs).wf(),
            old(self).state is PostInform || old(self).state is Draining
                || old(self).state is AwaitingResponse,
            old(acs).contains_serial(old(self).serial@),
            old(acs).entry_of(old(self).serial@).session_refs >= 1,
        ensures
            final(self).wf(),
            final(acs).wf(),
            final(self).serial == old(self).serial,
            old(acs).unchanged_except(*final(acs), old(self).serial@),
            final(acs).contains_serial(old(self).serial@),
            ({
                let s = old(self).serial@;
                let e0 = old(acs).entry_of(s);
                let e1 = final(acs).entry_of(s);
                let pend = e0.pending();
                &&& e1.device_id == e0.device_id
                &&& e1.connreq == e0.connreq
                &&& e1.baseurl == e0.baseurl
                &&& e1.controller_refs == e0.controller_refs
                &&& (r is Err ==> {
                    &&& r == Err::<SessionAction, AcsError>(AcsError::ProtocolError)
                    &&& final(self).state is Closed
                    &&& e1.session_refs == e0.session_refs - 1
                    &&& e1.pending() == pend
                    &&& final(self).replies == old(self).replies
                    &&& final(self).outstanding_observer is None
                })
                &&& (r is Ok ==> e1.session_refs == e0.session_refs)
                &&& ((old(self).state is PostInform || old(self).state is Draining) ==> {
                    &&& (body matches PostBody::Rpc(env) ==> {
                        &&& (env.spec_is_cpe_initiated() ==> {
                            &&& r == Ok::<SessionAction, AcsError>(
                                SessionAction::Respond(env.spec_cpe_rpc_response()))
                            &&& final(self).state is Draining
                            &&& e1.pending() == pend
                            &&& final(self).replies == old(self).replies
                        })
                        &&& (!env.spec_is_cpe_initiated() ==> r is Err)
                    })
                    &&& (body is Empty ==> r is Ok && final(self).replies == old(self).replies
                        && drained(*final(self), pend, e1.pending(), r.unwrap()))
                })
                &&& (old(self).state is AwaitingResponse ==> {
                    let req = old(self).outstanding_req@.unwrap();
                    &&& (body matches PostBody::Rpc(env) ==> {
                        &&& (env.id == old(self).outstanding_id ==> {
                            &&& r is Ok
                            &&& final(self).replies@ == old(self).replies@.push((req, env))
                            &&& drained(*final(self), pend, e1.pending(), r.unwrap())
                        })
                        &&& (env.id != old(self).outstanding_id ==> r is Err)
                    })
                    &&& (body is Empty ==> r is Err)
                })
            }),
    {
        let idx = match acs.lookup(&self.serial) {
            Some(i) => i,
            None => {
                proof {
                    assert(false);
                }
                return Err(AcsError::ProtocolError);
            },
        };
        proof {
            lemma_index_of_serial_is(*acs, self.serial@, idx as int);
        }
        let ghost pre = *acs;
        let mut entry = acs.cpe_list.remove(idx);
        let awaiting = self.state == SessionState::AwaitingResponse;
        let r: Result<SessionAction, AcsError> = match body {
            PostBody::Rpc(env) => {
                if awaiting {
                    if env.id == self.outstanding_id {
                        proof {
                            self.replies@ = self.replies@.push(
                                (self.outstanding_req@.unwrap(), env));
                        }
                        let delivered = match &self.outstanding_observer {
                            Some(tx) => observer_send(tx, env),
                            None => false,
                        };
                        // A failed send (the observer was dropped) is
                        // silently tolerated; the reply is discarded.
                        let _ = delivered;
                        self.outstanding_observer = None;
                        self.outstanding_req = Ghost(None);
                        Ok(self.drain_step(&mut entry))
                    } else {
                        self.abort(&mut entry);
                        Err(AcsError::ProtocolError)
                    }
                } else {
                    match env.cpe_rpc_response() {
                        Some(resp) => {
                            self.state = SessionState::Draining;
                            Ok(SessionAction::Respond(resp))
                        },
                        None => {
                            self.abort(&mut entry);
                            Err(AcsError::ProtocolError)
                        },
                    }
                }
            },
            PostBody::Empty => {
                if awaiting {
                    self.abort(&mut entry);
                    Err(AcsError::ProtocolError)
                } else {
                    Ok(self.drain_step(&mut entry))
                }
            },
        };
        acs.cpe_list.insert(idx, entry);
        proof {
            let s = old(self).serial@;
            assert(acs.cpe_list@ =~= pre.cpe_list@.update(idx as int, acs.cpe_list@[idx as int]));
            assert(acs.cpe_list@[idx as int].serial() == s);
            assert(acs.serials() =~= pre.serials());
            lemma_index_of_serial_is(*acs, s, idx as int);
        }
        r
    }

    /// The session's connection closed: the clean end after the `204`, and
    /// equally any transport failure or timeout mid-session. The session
    /// reference is released, the in-flight transfer's observer (if any) is
    /// closed without a reply, and queued transfers remain queued for the
    /// next session.
    pub fn on_close(&mut self, acs: &mut Acs)
        requires
            old(self).wf(),
            old(acs).wf(),
            old(self).attached(),
            old(acs).contains_serial(old(self).serial@),
            old(acs).entry_of(old(self).serial@).session_refs >= 1,
        ensures
            final(self).wf(),
            final(acs).wf(),
            final(self).state is Closed,
            final(self).serial == old(self).serial,
            final(self).replies == old(self).replies,
            final(self).outstanding_observer is None,
            old(acs).unchanged_except(*final(acs), old(self).serial@),
            final(acs).contains_serial(old(self).serial@),
            ({
                let s = old(self).serial@;
                let e0 = old(acs).entry_of(s);
                let e1 = final(acs).entry_of(s);
                &&& e1.session_refs == e0.session_refs - 1
                &&& e1.controller_refs == e0.controller_refs
                &&& e1.pending() == e0.pending()
                &&& e1.device_id == e0.device_id
                &&& e1.connreq == e0.connreq
                &&& e1.baseurl == e0.baseurl
            }),
    {
        let idx = match acs.lookup(&self.serial) {
            Some(i) => i,
            None => {
                proof {
                    assert(false);
                }
                return;
            },
        };
        proof {
            lemma_index_of_serial_is(*acs, self.serial@, idx as int);
        }
        let ghost pre = *acs;
        let mut entry = acs.cpe_list.remove(idx);
        self.abort(&mut entry);
        acs.cpe_list.insert(idx, entry);
        proof {
            let s = old(self).serial@;
            assert(acs.cpe_list@ =~= pre.cpe_list@.update(idx as int, acs.cpe_list@[idx as int]));
            assert(acs.cpe_list@[idx as int].serial() == s);
            assert(acs.serials() =~= pre.serials());
            lemma_index_of_serial_is(*acs, s, idx as int);
        }
    }

    /// Serve an empty poll (or the slot after a delivered reply): dequeue
    /// the oldest pending transfer and send its envelope, or — when the
    /// queue is empty — send the `204` and start closing.
    fn drain_step(&mut self, entry: &mut CPE) -> (a: SessionAction)
        ensures
            final(self).serial == old(self).serial,
            final(self).replies == old(self).replies,
            final(entry).session_refs == old(entry).session_refs,
            final(entry).controller_refs == old(entry).controller_refs,
            final(entry).device_id == old(entry).device_id,
            final(entry).connreq == old(entry).connreq,
            final(entry).baseurl == old(entry).baseurl,
            old(entry).pending().len() == 0 ==> {
                &&& a is Respond204
                &&& final(self).state is Closing
                &&& final(entry).pending() == old(entry).pending()
                &&& final(self).outstanding_observer == old(self).outstanding_observer
            },
            old(entry).pending().len() > 0 ==> {
                &&& a == (SessionAction::Respond(old(entry).pending()[0].msg))
                &&& final(self).state is AwaitingResponse
                &&& final(self).outstanding_id == old(entry).pending()[0].msg.id
                &&& final(self).outstanding_req@ == Some(old(entry).pending()[0].msg)
                &&& final(self).outstanding_observer == old(entry).pending()[0].observer
                &&& final(entry).pending() == old(entry).pending().drop_first()
            },
            final(self).wf() <== old(self).wf(),
    {
        match entry.transfers.try_dequeue() {
            Some(t) => {
                let Transfer { msg, observer } = t;
                self.outstanding_id = msg.id;
                self.outstanding_observer = observer;
                self.outstanding_req = Ghost(Some(msg));
                self.state = SessionState::AwaitingResponse;
                SessionAction::Respond(msg)
            },
            None => {
                self.state = SessionState::Closing;
                SessionAction::Respond204
            },
        }
    }
}

/// Law: every reply a session routes towards an observer answers exactly
/// the transfer it was dequeued for — the reply's `id` equals the request's.
pub proof fn lemma_replies_correlated(s: Session, i: int)
    requires
        s.wf(),
        0 <= i < s.replies@.len(),
    ensures
        s.replies@[i].1.id == s.replies@[i].0.id,
{
}

} // verus!
