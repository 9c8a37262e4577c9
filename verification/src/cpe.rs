//! One managed device: identity, Connection Request endpoint, transfer queue,
//! and the two counters observing who currently references the entry.

use vstd::prelude::*;
use crate::connreq::Connreq;
use crate::soap::DeviceId;
use crate::transfer::{Transfer, TransferQueue, queue_view};

verus! {

/// A CPE entry. The serial number inside `device_id` is the registry key and
/// is immutable once set.
///
/// `session_refs` counts the live session drivers attached to the entry and
/// `controller_refs` the live controller handles; each is incremented on
/// construction of the referencing party and decremented on its release.
/// Observers read the counters directly: `session_refs > 0` is the signal
/// that suppresses a redundant Connection Request.
pub struct CPE {
    pub device_id: DeviceId,
    pub connreq: Connreq,
    pub baseurl: String,
    pub session_refs: u64,
    pub controller_refs: u64,
    pub transfers: TransferQueue,
}

impl CPE {
    /// The entry's pending transfers, oldest first.
    pub open spec fn pending(self) -> Seq<Transfer> {
        queue_view(self.transfers)
    }

    /// The registry key of this entry.
    pub open spec fn serial(self) -> Seq<char> {
        self.device_id.serial_number@
    }

    /// True iff a session driver is currently attached to this entry.
    pub fn tr069_session_opened(&self) -> (b: bool)
        ensures
            b == (self.session_refs > 0),
    {
        self.session_refs > 0
    }

    /// True iff a controller handle is currently attached to this entry.
    pub fn cpe_controller_running(&self) -> (b: bool)
        ensures
            b == (self.controller_refs > 0),
    {
        self.controller_refs > 0
    }

    /// The number of live session drivers attached to this entry.
    pub fn get_tr069_session_refcount(&self) -> (n: u64)
        ensures
            n == self.session_refs,
    {
        self.session_refs
    }
}

impl Default for CPE {
    /// A default-initialized entry: blank identity, fresh Connection Request
    /// credentials, an empty queue, and no sessions or controllers attached.
    fn default() -> (r: CPE)
        ensures
            r.device_id.manufacturer@ == Seq::<char>::empty(),
            r.device_id.oui@ == Seq::<char>::empty(),
            r.device_id.product_class@ == Seq::<char>::empty(),
            r.device_id.serial_number@ == Seq::<char>::empty(),
            r.connreq.url@ == Seq::<char>::empty(),
            r.connreq.username@ == "acsrs"@,
            r.connreq.password@.len() == 32,
            r.baseurl@ == Seq::<char>::empty(),
            r.session_refs == 0,
            r.controller_refs == 0,
            r.pending() == Seq::<Transfer>::empty(),
    {
        CPE {
            device_id: DeviceId::default(),
            connreq: Connreq::default(),
            baseurl: String::new(),
            session_refs: 0,
            controller_refs: 0,
            transfers: TransferQueue::new(),
        }
    }
}

} // verus!
