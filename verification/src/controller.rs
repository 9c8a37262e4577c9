//! The controller handle: the management plane's side of one CPE.
//!
//! A controller enqueues transfers against the entry and, when no session
//! driver is attached at the post-enqueue check, asks its caller to wake the
//! CPE with a Connection Request. Queueing precedes wake-up, so a queued
//! transfer is not lost on wake-up failure.

use vstd::prelude::*;
use crate::connreq::Connreq;
use crate::cpe::CPE;
use crate::transfer::Transfer;

verus! {

/// The wake-up decision taken after an enqueue: either a session driver is
/// already attached and will pick the transfer up on its next poll, or the
/// caller must send a Connection Request to the endpoint cloned out of the
/// entry (cloned before any network call, so no lock spans the I/O).
pub enum WakeUp {
    SessionOpen,
    ConnectionRequest(Connreq),
}

/// The management plane's handle to one CPE. Constructing it attaches to
/// the entry (incrementing `controller_refs`); `release` detaches. Dropping
/// a handle never cancels already-enqueued transfers.
pub struct CPEController {
    pub serial: String,
}

impl CPEController {
    /// Attach a controller handle to an entry.
    pub fn new(cpe: &mut CPE) -> (r: CPEController)
        requires
            old(cpe).controller_refs < u64::MAX,
        ensures
            final(cpe).controller_refs == old(cpe).controller_refs + 1,
            final(cpe).device_id == old(cpe).device_id,
            final(cpe).connreq == old(cpe).connreq,
            final(cpe).baseurl == old(cpe).baseurl,
            final(cpe).session_refs == old(cpe).session_refs,
            final(cpe).pending() == old(cpe).pending(),
            r.serial@ == old(cpe).serial(),
    {
        cpe.controller_refs = cpe.controller_refs + 1;
        CPEController { serial: cpe.device_id.serial_number.clone() }
    }

    /// Enqueue a transfer, then consult `session_refs` at the post-enqueue
    /// check: a Connection Request is called for iff no session driver is
    /// attached at that moment. If one is, no wake-up is issued; the driver
    /// will pick the transfer up on its next poll.
    pub fn add_transfer(&self, cpe: &mut CPE, transfer: Transfer) -> (r: WakeUp)
        ensures
            final(cpe).pending() == old(cpe).pending().push(transfer),
            final(cpe).session_refs == old(cpe).session_refs,
            final(cpe).controller_refs == old(cpe).controller_refs,
            final(cpe).device_id == old(cpe).device_id,
            final(cpe).connreq == old(cpe).connreq,
            final(cpe).baseurl == old(cpe).baseurl,
            old(cpe).session_refs == 0 ==> r == WakeUp::ConnectionRequest(old(cpe).connreq),
            old(cpe).session_refs > 0 ==> r == WakeUp::SessionOpen,
    {
        cpe.transfers.enqueue(transfer);
        if !cpe.tr069_session_opened() {
            WakeUp::ConnectionRequest(cpe.connreq.duplicate())
        } else {
            WakeUp::SessionOpen
        }
    }

    /// Detach the handle: release the controller reference. Already-enqueued
    /// transfers stay queued.
    pub fn release(self, cpe: &mut CPE)
        requires
            old(cpe).controller_refs >= 1,
        ensures
            final(cpe).controller_refs == old(cpe).controller_refs - 1,
            final(cpe).device_id == old(cpe).device_id,
            final(cpe).connreq == old(cpe).connreq,
            final(cpe).baseurl == old(cpe).baseurl,
            final(cpe).session_refs == old(cpe).session_refs,
            final(cpe).pending() == old(cpe).pending(),
    {
        cpe.controller_refs = cpe.controller_refs - 1;
    }
}

/// Law: an attach (an increment on construction) followed by a release (a
/// decrement on scope exit) returns a refcount — `session_refs` and
/// `controller_refs` alike — to its pre-attachment value.
pub proof fn lemma_refcount_balanced(pre: u64, attached: u64, post: u64)
    requires
        attached == pre + 1,
        post == attached - 1,
    ensures
        post == pre,
{
}

} // verus!
