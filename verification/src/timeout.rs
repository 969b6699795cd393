//! Timeout policy for receive loops. A consumer calling
//! [`Receiver::recv_timeout`](crate::channel::Receiver::recv_timeout) gets a
//! three-way outcome — an item, a timeout, or a permanent disconnect — and
//! the policy decides the next move. The correctness-relevant rule: a bare
//! timeout must never end the loop on its own; only a disconnect may. The
//! policy is a verified function from outcome to decision, so the rule is a
//! proved property rather than caller discipline.

use vstd::prelude::*;
use crate::channel::RecvError;

verus! {

/// The deadline a consumer hands to each `recv_timeout` call. It should
/// exceed any expected inter-message gap during normal operation, else a
/// slow but healthy producer causes spurious timeouts; the decision rules
/// below keep even those timeouts harmless (a retry, never a shutdown).
#[derive(Clone, Copy, Debug, PartialEq, Eq, Structural)]
pub struct TimeoutPolicy {
    /// Deadline in milliseconds for one receive attempt.
    pub deadline_ms: u64,
}

impl TimeoutPolicy {
    /// Builds a policy with the given per-receive deadline.
    pub fn new(deadline_ms: u64) -> (p: TimeoutPolicy)
        ensures
            p.deadline_ms == deadline_ms,
    {
        TimeoutPolicy { deadline_ms }
    }
}

/// The consumer's next move after one receive attempt.
#[derive(Debug, PartialEq)]
pub enum RecvStep<T> {
    /// An item arrived; process it and keep looping.
    Deliver(T),
    /// The deadline elapsed but the channel is still open; try again.
    Retry,
    /// The channel is empty and permanently closed; stop polling.
    Shutdown,
}

/// The decision the policy takes for each receive outcome: an item is
/// delivered, a timeout is retried, a disconnect shuts the loop down.
pub open spec fn decision_of<T>(r: Result<T, RecvError>) -> RecvStep<T> {
    match r {
        Ok(item) => RecvStep::Deliver(item),
        Err(RecvError::Timeout) => RecvStep::Retry,
        Err(RecvError::Disconnected) => RecvStep::Shutdown,
    }
}

/// Maps one receive outcome to the consumer's next move, exactly as
/// [`decision_of`] states.
pub fn classify<T>(r: Result<T, RecvError>) -> (s: RecvStep<T>)
    ensures
        s == decision_of(r),
{
    match r {
        Ok(item) => RecvStep::Deliver(item),
        Err(RecvError::Timeout) => RecvStep::Retry,
        Err(RecvError::Disconnected) => RecvStep::Shutdown,
    }
}

/// A bare timeout never terminates the receive loop on its own: the policy
/// answers a timeout with a retry, and the channel stays usable for the
/// next attempt.
pub proof fn lemma_timeout_is_retried<T>(r: Result<T, RecvError>)
    requires
        r == Result::<T, RecvError>::Err(RecvError::Timeout),
    ensures
        decision_of(r) == RecvStep::<T>::Retry,
{
}

/// Only a permanent disconnect ends the receive loop: the policy decides
/// `Shutdown` for an outcome exactly when that outcome is `Disconnected`.
pub proof fn lemma_shutdown_only_on_disconnect<T>(r: Result<T, RecvError>)
    ensures
        decision_of(r) == RecvStep::<T>::Shutdown <==> r == Result::<T, RecvError>::Err(
            RecvError::Disconnected,
        ),
{
}

/// Delivery is lossless: when an item arrives, the policy hands back that
/// item and no other.
pub proof fn lemma_delivery_keeps_item<T>(r: Result<T, RecvError>, item: T)
    requires
        r == Result::<T, RecvError>::Ok(item),
    ensures
        decision_of(r) == RecvStep::Deliver(item),
{
}

} // verus!
