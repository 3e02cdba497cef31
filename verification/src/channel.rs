//! Bounded-queue plumbing shared by the manager, the sessions and the decoder.
//!
//! The queues are tokio's bounded mpsc channels. A queue is shared with other
//! tasks, so nothing can be promised about what a send or a receive finds
//! there: the contracts state only what holds of every outcome. What can be
//! stated is the wiring and the shape: each queue end carries a ghost pairing
//! id, minted only when `new_queue` wraps the two ends of one fresh channel,
//! and the ghost capacity that queue was created with, so a contract can say
//! that a sender feeds the very queue a receiver drains and how much the
//! queue holds at most. A capacity is fixed at creation and never resized.

use vstd::prelude::*;

verus! {

#[verifier::external_type_specification]
#[verifier::external_body]
#[verifier::reject_recursive_types(T)]
pub struct ExSender<T>(tokio::sync::mpsc::Sender<T>);

#[verifier::external_type_specification]
#[verifier::external_body]
#[verifier::reject_recursive_types(T)]
pub struct ExReceiver<T>(tokio::sync::mpsc::Receiver<T>);

/// The sending end of one bounded queue.
#[verifier::reject_recursive_types(T)]
pub struct QueueSender<T> {
    /// The underlying tokio sender, for asynchronous callers outside the
    /// library.
    pub inner: tokio::sync::mpsc::Sender<T>,
    pair: Ghost<nat>,
    cap: Ghost<nat>,
}

/// The receiving end of one bounded queue.
#[verifier::reject_recursive_types(T)]
pub struct QueueReceiver<T> {
    /// The underlying tokio receiver, for asynchronous callers outside the
    /// library.
    pub inner: tokio::sync::mpsc::Receiver<T>,
    pair: Ghost<nat>,
    cap: Ghost<nat>,
}

impl<T> QueueSender<T> {
    /// The pairing id of the queue this end feeds.
    pub closed spec fn pair(&self) -> nat {
        self.pair@
    }

    /// The fixed capacity the queue this end feeds was created with.
    pub closed spec fn capacity(&self) -> nat {
        self.cap@
    }

    /// Hands one value to the queue without waiting: `Full` reports a
    /// saturated queue, with no retry and the value dropped; `Disconnected`
    /// a queue whose receiving end is gone. Never blocks and never panics.
    pub fn submit(&self, value: T) -> SendOutcome {
        try_send_to(self, value)
    }
}

impl<T> QueueReceiver<T> {
    /// The pairing id of the queue this end drains.
    pub closed spec fn pair(&self) -> nat {
        self.pair@
    }

    /// The fixed capacity the queue this end drains was created with.
    pub closed spec fn capacity(&self) -> nat {
        self.cap@
    }
}

/// What became of a value handed to a bounded queue without waiting.
#[derive(Clone, Copy, PartialEq, Eq, Structural, Debug)]
pub enum SendOutcome {
    /// The value sits in the queue.
    Delivered,
    /// The queue was at capacity; the value was dropped.
    Full,
    /// Every receiving end is gone; the value was dropped.
    Disconnected,
}

/// Relies on tokio::sync::mpsc::channel: creates a bounded queue of the given
/// capacity and returns its two ends. The call panics on a zero capacity and
/// on one above tokio's semaphore bound, an eighth of `usize::MAX`, so those
/// inputs are excluded here.
#[verifier::external_body]
fn raw_channel<T>(capacity: usize) -> (tokio::sync::mpsc::Sender<T>, tokio::sync::mpsc::Receiver<T>)
    requires
        1 <= capacity <= usize::MAX / 8,
{
    tokio::sync::mpsc::channel(capacity)
}

/// A fresh bounded queue of the given capacity: a sender and a receiver
/// carrying one shared pairing id and that capacity, fixed for the queue's
/// whole life.
pub fn new_queue<T>(capacity: usize) -> (r: (QueueSender<T>, QueueReceiver<T>))
    requires
        1 <= capacity <= usize::MAX / 8,
    ensures
        r.0.pair() == r.1.pair(),
        r.0.capacity() == capacity as nat,
        r.1.capacity() == capacity as nat,
{
    let (tx, rx) = raw_channel(capacity);
    let ghost p: nat = vstd::pervasive::arbitrary();
    (
        QueueSender { inner: tx, pair: Ghost(p), cap: Ghost(capacity as nat) },
        QueueReceiver { inner: rx, pair: Ghost(p), cap: Ghost(capacity as nat) },
    )
}

/// Relies on tokio::sync::mpsc::Sender::try_send: enqueues the value unless
/// the queue is full or closed; never blocks and never panics.
#[verifier::external_body]
pub(crate) fn try_send_to<T>(tx: &QueueSender<T>, value: T) -> (r: SendOutcome) {
    match tx.inner.try_send(value) {
        Ok(()) => SendOutcome::Delivered,
        Err(tokio::sync::mpsc::error::TrySendError::Full(_)) => SendOutcome::Full,
        Err(tokio::sync::mpsc::error::TrySendError::Closed(_)) => SendOutcome::Disconnected,
    }
}

/// Relies on tokio::sync::mpsc::Receiver::try_recv: returns the next queued
/// value, or nothing when none is ready; it never waits for a value to
/// arrive, though it may briefly wait out one concurrent send caught
/// mid-write, and it never panics. The receiver keeps draining the same
/// queue, whose capacity never changes.
#[verifier::external_body]
pub(crate) fn try_recv_from<T>(rx: &mut QueueReceiver<T>) -> (r: Option<T>)
    ensures
        final(rx).pair() == old(rx).pair(),
        final(rx).capacity() == old(rx).capacity(),
{
    rx.inner.try_recv().ok()
}

/// Relies on tokio::sync::mpsc::Sender::clone: another sending handle to the
/// same queue.
#[verifier::external_body]
fn raw_clone<T>(tx: &tokio::sync::mpsc::Sender<T>) -> tokio::sync::mpsc::Sender<T> {
    tx.clone()
}

/// Another sending handle to the same queue, keeping its pairing id and
/// capacity.
pub(crate) fn clone_sender<T>(tx: &QueueSender<T>) -> (r: QueueSender<T>)
    ensures
        r.pair() == tx.pair(),
        r.capacity() == tx.capacity(),
{
    QueueSender { inner: raw_clone(&tx.inner), pair: Ghost(tx.pair()), cap: Ghost(tx.capacity()) }
}

} // verus!
