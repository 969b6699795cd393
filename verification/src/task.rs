//! Worker tasks: a unit of concurrent execution wrapping a closure and its
//! result. A task starts running as soon as it is spawned; its outcome is
//! retrieved exactly once through [`TaskHandle::join`], which surfaces an
//! abnormal termination as [`TaskFailure`] instead of crashing the caller.
//!
//! Built on vstd's verified thread support: the handle's
//! [`can_return`](TaskHandle::can_return) predicate carries the spawned
//! closure's postcondition to the join site, so whatever a successful join
//! yields is a value the task body's contract allows.

use vstd::prelude::*;
use vstd::*;

verus! {

/// A task terminated abnormally (the abstract equivalent of an uncaught
/// fault). Returned by [`TaskHandle::join`]; it is recorded and reported,
/// never re-raised, so one failed worker cannot crash the coordinator.
#[derive(Clone, Copy, Debug, PartialEq, Eq, Structural)]
pub struct TaskFailure;

/// Exclusive handle to a spawned task. Joining consumes the handle, so a
/// task is joined at most once by construction; dropping the handle without
/// joining forfeits the result.
#[verifier::reject_recursive_types(R)]
pub struct TaskHandle<R> {
    inner: thread::JoinHandle<R>,
}

impl<R> TaskHandle<R> {
    /// The values a join of the handle can yield: exactly those the
    /// worker's postcondition allows, which [`spawn`] carries over.
    pub closed spec fn can_return(&self, ret: R) -> bool {
        self.inner.predicate(ret)
    }

    /// Blocks the caller until the task finishes. Returns `Ok(v)` when the
    /// task completed normally with `v` — necessarily a value its body's
    /// contract allows — and `Err(TaskFailure)` when it terminated
    /// abnormally. Consumes the handle: a second join is a type error.
    pub fn join(self) -> (r: Result<R, TaskFailure>)
        ensures
            r matches Ok(v) ==> self.can_return(v),
    {
        match self.inner.join() {
            Ok(v) => Ok(v),
            Err(_) => Err(TaskFailure),
        }
    }
}

/// Spawns a task executing `f` concurrently with the caller, starting
/// immediately. The closure's precondition must hold at the call; its
/// postcondition is carried over to the handle, so the value a later join
/// yields is pinned by `f`'s contract.
pub fn spawn<F, R>(f: F) -> (h: TaskHandle<R>) where
    F: FnOnce() -> R,
    F: Send + 'static,
    R: Send + 'static,

    requires
        f.requires(()),
    ensures
        forall|ret: R| #[trigger] h.can_return(ret) ==> f.ensures((), ret),
{
    TaskHandle { inner: thread::spawn(f) }
}

/// A joined task yields only values its body could have produced: when the
/// task body's postcondition pins the result to a single value `v`, a
/// successful join yields exactly `v`.
///
/// The hypotheses are the contracts of [`spawn`] (of `f`, producing `h`) and
/// of [`TaskHandle::join`] (on `h`, producing `r`); that the handle is
/// consumed by join makes the retrieval happen at most once.
pub proof fn lemma_join_yields_task_value<F, R>(f: F, h: TaskHandle<R>, r: Result<
    R,
    TaskFailure,
>, v: R) where F: FnOnce() -> R
    requires
        forall|ret: R| #[trigger] h.can_return(ret) ==> f.ensures((), ret),
        forall|ret: R| f.ensures((), ret) ==> ret == v,
        r matches Ok(x) ==> h.can_return(x),
    ensures
        r matches Ok(x) ==> x == v,
{
}

} // verus!
