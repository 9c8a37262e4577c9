//! Transfers and the per-CPE transfer queue.
//!
//! A transfer is a queued request envelope plus an optional single-shot reply
//! channel. The queue is flume's unbounded MPMC channel: unboundedness is
//! deliberate, so the management plane never blocks the session driver and
//! vice versa.

use vstd::prelude::*;
use crate::soap::Envelope;

verus! {

#[verifier::external_type_specification]
#[verifier::external_body]
#[verifier::reject_recursive_types(T)]
pub struct ExTokioSender<T>(tokio::sync::mpsc::Sender<T>);

#[verifier::external_type_specification]
#[verifier::external_body]
#[verifier::reject_recursive_types(T)]
pub struct ExTokioReceiver<T>(tokio::sync::mpsc::Receiver<T>);

/// Relies on `tokio::sync::mpsc::channel`: a fresh bounded channel of the
/// given capacity. The call panics on capacity zero, so that is excluded.
#[verifier::external_body]
pub fn reply_channel(capacity: usize) -> (r: (tokio::sync::mpsc::Sender<Envelope>, tokio::sync::mpsc::Receiver<Envelope>))
    requires
        capacity > 0,
{
    tokio::sync::mpsc::channel(capacity)
}

/// Relies on `tokio::sync::mpsc::Sender::try_send`: delivers the message if
/// the receiver is alive and the buffer has room; a failed send (observer
/// dropped or buffer full) leaves the message undelivered. Which outcome
/// occurs depends on the receiving side, so only the outcome flag is stated.
#[verifier::external_body]
pub fn observer_send(tx: &tokio::sync::mpsc::Sender<Envelope>, reply: Envelope) -> (delivered: bool)
{
    tx.try_send(reply).is_ok()
}

/// One queued management operation: a request envelope plus an optional
/// single-shot reply channel. The channel has capacity 1, so the session
/// driver never blocks on a slow consumer.
pub struct Transfer {
    pub msg: Envelope,
    pub observer: Option<tokio::sync::mpsc::Sender<Envelope>>,
}

impl Transfer {
    /// A fresh transfer with a blank envelope and no observer.
    pub fn new() -> (r: Transfer)
        ensures
            r.msg.id == 1,
            r.msg.rpc is Empty,
            r.observer is None,
    {
        Transfer { msg: Envelope::new(1), observer: None }
    }

    /// Attach a capacity-1 reply channel and hand back its receiving end.
    /// The observer receives exactly zero or one reply envelope.
    pub fn rxchannel(&mut self) -> (rx: tokio::sync::mpsc::Receiver<Envelope>)
        ensures
            final(self).msg == old(self).msg,
            final(self).observer is Some,
    {
        let (tx, rx) = reply_channel(1);
        self.observer = Some(tx);
        rx
    }
}

/// The pending transfers of a queue, oldest first.
pub uninterp spec fn queue_view(q: TransferQueue) -> Seq<Transfer>;

/// The per-CPE transfer queue: flume's unbounded channel, with both ends
/// owned by the entry so that an enqueue can never find the queue closed.
///
/// The channel itself is opaque to the verifier; `queue_view` names its
/// pending contents, and the methods below state over that name what flume's
/// documentation promises: FIFO order, non-blocking unbounded send.
#[verifier::external_body]
pub struct TransferQueue {
    tx: flume::Sender<Transfer>,
    rx: flume::Receiver<Transfer>,
}

impl TransferQueue {
    /// Relies on `flume::unbounded`: a fresh channel holding nothing.
    #[verifier::external_body]
    pub fn new() -> (q: TransferQueue)
        ensures
            queue_view(q) == Seq::<Transfer>::empty(),
    {
        let (tx, rx) = flume::unbounded();
        TransferQueue { tx, rx }
    }

    /// Relies on `flume::Sender::send`: on an unbounded channel the send is
    /// non-blocking and appends the message; it can fail only when every
    /// receiver is gone, and this queue owns its receiver.
    #[verifier::external_body]
    pub fn enqueue(&mut self, t: Transfer)
        ensures
            queue_view(*final(self)) == queue_view(*old(self)).push(t),
    {
        let _ = self.tx.send(t);
    }

    /// Relies on `flume::Receiver::try_recv`: removes and returns the oldest
    /// pending message without blocking, or returns nothing when the channel
    /// is empty.
    #[verifier::external_body]
    pub fn try_dequeue(&mut self) -> (r: Option<Transfer>)
        ensures
            queue_view(*old(self)).len() == 0 ==> r is None
                && queue_view(*final(self)) == queue_view(*old(self)),
            queue_view(*old(self)).len() > 0 ==> r == Some(queue_view(*old(self))[0])
                && queue_view(*final(self)) == queue_view(*old(self)).drop_first(),
    {
        self.rx.try_recv().ok()
    }
}

/// Law: the driver dequeues in enqueue order. Serving a queue front-first,
/// after `i` transfers of a pending sequence have been served the next one
/// served is element `i`, and serving it leaves elements `i + 1` onward.
pub proof fn lemma_fifo_dispatch(pend: Seq<Transfer>, i: int)
    requires
        0 <= i < pend.len(),
    ensures
        pend.skip(i)[0] == pend[i],
        pend.skip(i).drop_first() == pend.skip(i + 1),
{
    assert(pend.skip(i).drop_first() =~= pend.skip(i + 1));
}

} // verus!
