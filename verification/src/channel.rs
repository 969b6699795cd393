//! Unbounded multi-producer multi-consumer FIFO channel with explicit close
//! semantics: the channel closes exactly when the last live `Sender` is
//! dropped; items already enqueued are still delivered, and a receive on an
//! empty closed channel reports a permanent disconnect.
//!
//! The queue itself is crossbeam's; every call into it goes through a trusted
//! wrapper whose contract states only what crossbeam's documentation
//! promises of every outcome. What is received is handed back as a plain
//! value, so the logic that consumes it is verified for every value.

use vstd::prelude::*;

verus! {

/// Error returned by [`Sender::send`] when the channel is fully closed: no
/// `Receiver` remains alive, so the item cannot be delivered. The undelivered
/// item is handed back to the caller.
#[derive(Debug)]
pub struct Closed<T> {
    /// The item that could not be delivered.
    pub item: T,
}

/// Error returned by [`Receiver::recv`]: the channel is empty and permanently
/// closed (every `Sender` has been dropped), so no further item can arrive.
#[derive(Clone, Copy, Debug, PartialEq, Eq, Structural)]
pub struct Disconnected;

/// Error returned by [`Receiver::recv_timeout`]. The two variants demand
/// different reactions: `Timeout` means the channel is still open and the
/// caller should retry; `Disconnected` means the channel is permanently
/// closed and the caller must stop polling.
#[derive(Clone, Copy, Debug, PartialEq, Eq, Structural)]
pub enum RecvError {
    /// The deadline elapsed with no item available; the channel may still
    /// deliver items later.
    Timeout,
    /// The channel is empty and every `Sender` has been dropped; no item
    /// will ever arrive.
    Disconnected,
}

/// Sending half of a channel. Cloning yields an independent handle to the
/// same queue; the channel closes when the last `Sender` is dropped.
/// The struct only carries crossbeam's sending handle; Verus sees it as
/// opaque, and every operation on it goes through a trusted wrapper.
#[verifier::external_body]
#[verifier::reject_recursive_types(T)]
pub struct Sender<T> {
    inner: crossbeam::channel::Sender<T>,
}

/// Receiving half of a channel. Cloning yields an independent handle to the
/// same queue; each item is delivered to exactly one receiver.
/// The struct only carries crossbeam's receiving handle; Verus sees it as
/// opaque, and every operation on it goes through a trusted wrapper.
#[verifier::external_body]
#[verifier::reject_recursive_types(T)]
pub struct Receiver<T> {
    inner: crossbeam::channel::Receiver<T>,
}

/// Relies on crossbeam::channel::unbounded: a fresh unbounded FIFO queue
/// with one sending and one receiving handle.
#[verifier::external_body]
fn create_raw<T>() -> (Sender<T>, Receiver<T>) {
    let (tx, rx) = crossbeam::channel::unbounded();
    (Sender { inner: tx }, Receiver { inner: rx })
}

/// Creates an unbounded channel, returning its two endpoints.
pub fn create<T>() -> (Sender<T>, Receiver<T>) {
    create_raw()
}

impl<T> Sender<T> {
    /// Relies on crossbeam::channel::Sender::send: on an unbounded channel
    /// it enqueues the message unless every receiver has been dropped, in
    /// which case the returned error contains the original message.
    #[verifier::external_body]
    fn send_raw(&self, item: T) -> (r: Result<(), Closed<T>>)
        ensures
            r matches Err(c) ==> c.item == item,
    {
        match self.inner.send(item) {
            Ok(()) => Ok(()),
            Err(crossbeam::channel::SendError(it)) => Err(Closed { item: it }),
        }
    }

    /// Enqueues `item`. Fails with [`Closed`] only when no `Receiver`
    /// remains alive; the error then carries `item` back unchanged, so a
    /// producer that must not lose work can recover it.
    pub fn send(&self, item: T) -> (r: Result<(), Closed<T>>)
        ensures
            r matches Err(c) ==> c.item == item,
    {
        self.send_raw(item)
    }
}

impl<T> Clone for Sender<T> {
    /// Relies on crossbeam::channel::Sender::clone: an independent handle to
    /// the same queue; the live-sender count rises by one, so the channel
    /// stays open while this handle lives.
    #[verifier::external_body]
    fn clone(&self) -> (r: Self) {
        Sender { inner: self.inner.clone() }
    }
}

impl<T> Receiver<T> {
    /// Relies on crossbeam::channel::Receiver::recv: blocks until an item is
    /// available or, once the channel is empty and every sender has been
    /// dropped, reports the permanent disconnect.
    #[verifier::external_body]
    fn recv_raw(&self) -> (r: Result<T, Disconnected>) {
        match self.inner.recv() {
            Ok(it) => Ok(it),
            Err(crossbeam::channel::RecvError) => Err(Disconnected),
        }
    }

    /// Blocks the calling task until an item arrives, or returns
    /// [`Disconnected`] once the channel is empty and permanently closed.
    /// Which item arrives depends on the other endpoints' timing, so nothing
    /// more is promised of the value; callers pass it to verified logic that
    /// handles every possible item.
    pub fn recv(&self) -> (r: Result<T, Disconnected>) {
        self.recv_raw()
    }

    /// Relies on crossbeam::channel::Receiver::recv_timeout: waits at most
    /// the given number of milliseconds; `Timeout` reports an elapsed
    /// deadline on a still-open channel, `Disconnected` an empty channel
    /// whose senders are all gone.
    #[verifier::external_body]
    fn recv_timeout_raw(&self, timeout_ms: u64) -> (r: Result<T, RecvError>) {
        match self.inner.recv_timeout(std::time::Duration::from_millis(timeout_ms)) {
            Ok(it) => Ok(it),
            Err(crossbeam::channel::RecvTimeoutError::Timeout) => Err(RecvError::Timeout),
            Err(crossbeam::channel::RecvTimeoutError::Disconnected) => Err(RecvError::Disconnected),
        }
    }

    /// Waits for an item, but only for `timeout_ms` milliseconds. The two
    /// error variants must be treated differently: [`RecvError::Timeout`]
    /// invites a retry, [`RecvError::Disconnected`] ends the receive loop.
    pub fn recv_timeout(&self, timeout_ms: u64) -> (r: Result<T, RecvError>) {
        self.recv_timeout_raw(timeout_ms)
    }
}

impl<T> Clone for Receiver<T> {
    /// Relies on crossbeam::channel::Receiver::clone: an independent handle
    /// to the same queue; each enqueued item is still delivered to exactly
    /// one receiving handle.
    #[verifier::external_body]
    fn clone(&self) -> (r: Self) {
        Receiver { inner: self.inner.clone() }
    }
}

} // verus!
