//! The coordinator: owns the handles of a fixed set of worker tasks, drives
//! producers and consumers over a shared channel, joins every worker in a
//! fixed, deterministic order, and aggregates failures into a report instead
//! of propagating the first one — one failed worker never prevents
//! collecting the outcomes of the rest.

use vstd::prelude::*;
use crate::channel::{Closed, Receiver, Sender};
use crate::task::{spawn, TaskFailure, TaskHandle};
use crate::timeout::{classify, RecvStep, TimeoutPolicy};

verus! {

/// Number of `Err(TaskFailure)` entries in a sequence of worker outcomes.
pub open spec fn failure_count_of<R>(s: Seq<Result<R, TaskFailure>>) -> int
    decreases s.len(),
{
    if s.len() == 0 {
        0
    } else {
        failure_count_of(s.drop_last()) + if s.last() is Err {
            1int
        } else {
            0int
        }
    }
}

/// The successful results in a sequence of worker outcomes, in order.
pub open spec fn ok_values_of<R>(s: Seq<Result<R, TaskFailure>>) -> Seq<R>
    decreases s.len(),
{
    if s.len() == 0 {
        Seq::empty()
    } else {
        match s.last() {
            Ok(v) => ok_values_of(s.drop_last()).push(v),
            Err(_) => ok_values_of(s.drop_last()),
        }
    }
}

/// Every worker outcome is either a failure or a success: the failures and
/// the successful results together account for the whole report.
pub proof fn lemma_outcomes_partition<R>(s: Seq<Result<R, TaskFailure>>)
    ensures
        failure_count_of(s) + ok_values_of(s).len() == s.len(),
        0 <= failure_count_of(s),
    decreases s.len(),
{
    if s.len() > 0 {
        lemma_outcomes_partition(s.drop_last());
    }
}

proof fn lemma_failure_count_take_step<R>(s: Seq<Result<R, TaskFailure>>, i: int)
    requires
        0 <= i < s.len(),
    ensures
        failure_count_of(s.take(i + 1)) == failure_count_of(s.take(i)) + if s[i] is Err {
            1int
        } else {
            0int
        },
{
    assert(s.take(i + 1).drop_last() =~= s.take(i));
    assert(s.take(i + 1).last() == s[i]);
}

proof fn lemma_ok_values_take_step<R>(s: Seq<Result<R, TaskFailure>>, i: int)
    requires
        0 <= i < s.len(),
    ensures
        ok_values_of(s.take(i + 1)) == match s[i] {
            Ok(v) => ok_values_of(s.take(i)).push(v),
            Err(_) => ok_values_of(s.take(i)),
        },
{
    assert(s.take(i + 1).drop_last() =~= s.take(i));
    assert(s.take(i + 1).last() == s[i]);
}

/// Aggregate outcome of a joined set of workers: one entry per worker, in
/// join order, each either the worker's result or its recorded failure.
pub struct Report<R> {
    outcomes: Vec<Result<R, TaskFailure>>,
}

impl<R> View for Report<R> {
    type V = Seq<Result<R, TaskFailure>>;

    closed spec fn view(&self) -> Seq<Result<R, TaskFailure>> {
        self.outcomes@
    }
}

impl<R> Report<R> {
    /// Wraps a sequence of per-worker outcomes as a report.
    pub fn from_outcomes(outcomes: Vec<Result<R, TaskFailure>>) -> (rep: Report<R>)
        ensures
            rep@ == outcomes@,
    {
        Report { outcomes }
    }

    /// Number of workers the report covers.
    pub fn len(&self) -> (n: usize)
        ensures
            n == self@.len(),
    {
        self.outcomes.len()
    }

    /// Number of workers that terminated abnormally.
    pub fn failure_count(&self) -> (n: usize)
        ensures
            n == failure_count_of(self@),
    {
        proof {
            lemma_outcomes_partition(self@);
        }
        let mut n: usize = 0;
        let mut i: usize = 0;
        while i < self.outcomes.len()
            invariant
                0 <= i <= self.outcomes@.len(),
                n == failure_count_of(self.outcomes@.take(i as int)),
                n <= i,
            decreases self.outcomes@.len() - i,
        {
            proof {
                lemma_failure_count_take_step(self.outcomes@, i as int);
            }
            if self.outcomes[i].is_err() {
                n = n + 1;
            }
            i = i + 1;
        }
        proof {
            assert(self.outcomes@.take(self.outcomes@.len() as int) =~= self.outcomes@);
        }
        n
    }

    /// Whether every worker completed normally.
    pub fn all_succeeded(&self) -> (b: bool)
        ensures
            b <==> (forall|i: int| 0 <= i < self@.len() ==> self@[i] is Ok),
    {
        let mut i: usize = 0;
        while i < self.outcomes.len()
            invariant
                0 <= i <= self.outcomes@.len(),
                forall|j: int| 0 <= j < i ==> self.outcomes@[j] is Ok,
            decreases self.outcomes@.len() - i,
        {
            if self.outcomes[i].is_err() {
                return false;
            }
            i = i + 1;
        }
        true
    }

    /// Hands the per-worker outcomes out, in join order.
    pub fn into_outcomes(self) -> (outcomes: Vec<Result<R, TaskFailure>>)
        ensures
            outcomes@ == self@,
    {
        self.outcomes
    }

    /// The successful results, in join order, failures left out.
    pub fn successes(self) -> (values: Vec<R>)
        ensures
            values@ == ok_values_of(self@),
    {
        let ghost orig = self.outcomes@;
        let mut outcomes = self.outcomes;
        let mut values: Vec<R> = Vec::new();
        let ghost mut i: int = 0;
        while outcomes.len() > 0
            invariant
                0 <= i,
                i + outcomes@.len() == orig.len(),
                outcomes@ == orig.subrange(i, orig.len() as int),
                values@ == ok_values_of(orig.take(i)),
            decreases outcomes@.len(),
        {
            proof {
                lemma_ok_values_take_step(orig, i);
                assert(outcomes@[0] == orig[i]);
            }
            let o = outcomes.remove(0);
            match o {
                Ok(v) => values.push(v),
                Err(_) => (),
            }
            proof {
                i = i + 1;
                assert(outcomes@ =~= orig.subrange(i, orig.len() as int));
            }
        }
        proof {
            assert(orig.take(orig.len() as int) =~= orig);
        }
        values
    }
}

/// Owns the handles of the workers spawned for one orchestration: a mapping
/// from worker position to task handle, held only until [`Coordinator::join_all`]
/// consumes it.
#[verifier::reject_recursive_types(R)]
pub struct Coordinator<R> {
    handles: Vec<TaskHandle<R>>,
}

impl<R> View for Coordinator<R> {
    type V = Seq<TaskHandle<R>>;

    closed spec fn view(&self) -> Seq<TaskHandle<R>> {
        self.handles@
    }
}

impl<R> Coordinator<R> {
    /// A coordinator with no workers yet.
    pub fn new() -> (c: Coordinator<R>)
        ensures
            c@.len() == 0,
    {
        Coordinator { handles: Vec::new() }
    }

    /// Number of workers registered so far.
    pub fn worker_count(&self) -> (n: usize)
        ensures
            n == self@.len(),
    {
        self.handles.len()
    }

    /// Takes ownership of an already spawned task's handle; it will be
    /// joined, in registration order, by [`Coordinator::join_all`].
    pub fn register(&mut self, h: TaskHandle<R>)
        ensures
            final(self)@ == old(self)@.push(h),
    {
        self.handles.push(h);
    }

    /// Spawns a worker executing `f` — which closes over whatever moved-in
    /// state and cloned channel endpoints it needs — and keeps its handle:
    /// earlier workers are untouched, and the new worker's possible results
    /// are pinned by `f`'s contract.
    pub fn spawn_worker<F>(&mut self, f: F) where
        F: FnOnce() -> R,
        F: Send + 'static,
        R: Send + 'static,

        requires
            f.requires(()),
        ensures
            final(self)@.len() == old(self)@.len() + 1,
            forall|i: int| 0 <= i < old(self)@.len() ==> final(self)@[i] == old(self)@[i],
            forall|ret: R| #[trigger] final(self)@.last().can_return(ret) ==> f.ensures((), ret),
    {
        let h = spawn(f);
        self.handles.push(h);
    }

    /// Joins every registered worker, in registration order, and aggregates
    /// the outcomes: the report covers each worker, a failure is recorded in
    /// place rather than cutting the collection short, and every successful
    /// entry is a value the corresponding task's contract allows.
    pub fn join_all(self) -> (report: Report<R>)
        ensures
            report@.len() == self@.len(),
            forall|i: int|
                0 <= i < self@.len() ==> ((#[trigger] report@[i]) matches Ok(v)
                    ==> self@[i].can_return(v)),
    {
        let ghost orig = self.handles@;
        let mut handles = self.handles;
        let mut outcomes: Vec<Result<R, TaskFailure>> = Vec::new();
        while handles.len() > 0
            invariant
                outcomes@.len() + handles@.len() == orig.len(),
                handles@ == orig.subrange(outcomes@.len() as int, orig.len() as int),
                forall|i: int|
                    0 <= i < outcomes@.len() ==> ((#[trigger] outcomes@[i]) matches Ok(v)
                        ==> orig[i].can_return(v)),
            decreases handles@.len(),
        {
            let ghost k = outcomes@.len() as int;
            proof {
                assert(handles@[0] == orig[k]);
            }
            let h = handles.remove(0);
            let r = h.join();
            outcomes.push(r);
            proof {
                assert(handles@ =~= orig.subrange(k + 1, orig.len() as int));
            }
        }
        Report { outcomes }
    }
}

/// Spawns one worker per job and joins them all before returning: joining is
/// mandatory by construction, no handle can leak. The report covers every
/// job, in order, and each successful entry is a value the corresponding
/// job's contract allows.
pub fn run_all<F, R>(jobs: Vec<F>) -> (report: Report<R>) where
    F: FnOnce() -> R,
    F: Send + 'static,
    R: Send + 'static,

    requires
        forall|i: int| 0 <= i < jobs@.len() ==> (#[trigger] jobs@[i]).requires(()),
    ensures
        report@.len() == jobs@.len(),
        forall|i: int|
            0 <= i < jobs@.len() ==> ((#[trigger] report@[i]) matches Ok(v) ==> jobs@[i].ensures(
                (),
                v,
            )),
{
    let ghost jorig = jobs@;
    let mut jobs = jobs;
    let mut c = Coordinator::<R>::new();
    while jobs.len() > 0
        invariant
            c@.len() + jobs@.len() == jorig.len(),
            jobs@ == jorig.subrange(c@.len() as int, jorig.len() as int),
            forall|i: int| 0 <= i < jorig.len() ==> (#[trigger] jorig[i]).requires(()),
            forall|i: int, ret: R|
                0 <= i < c@.len() && (#[trigger] c@[i].can_return(ret)) ==> jorig[i].ensures(
                    (),
                    ret,
                ),
        decreases jobs@.len(),
    {
        let ghost k = c@.len() as int;
        proof {
            assert(jobs@[0] == jorig[k]);
        }
        let f = jobs.remove(0);
        c.spawn_worker(f);
        proof {
            assert(c@.last() == c@[k]);
            assert(forall|ret: R| #[trigger] c@[k].can_return(ret) ==> jorig[k].ensures((), ret));
            assert(jobs@ =~= jorig.subrange(k + 1, jorig.len() as int));
        }
    }
    c.join_all()
}

/// Sends every item of `items` over `tx`, in order. Returns the number of
/// items sent on success; stops at the first fully-closed signal and hands
/// that undelivered item back, so the caller decides what to do with it.
#[verifier::loop_isolation(false)]
pub fn send_all<T>(tx: &Sender<T>, items: Vec<T>) -> (r: Result<usize, Closed<T>>)
    ensures
        r matches Ok(n) ==> n == items@.len(),
        r matches Err(c) ==> items@.contains(c.item),
{
    let ghost orig = items@;
    let mut pending = items;
    let total: usize = pending.len();
    let mut sent: usize = 0;
    while pending.len() > 0
        invariant
            total == orig.len(),
            sent + pending@.len() == total,
            pending@ == orig.subrange(sent as int, orig.len() as int),
        decreases pending@.len(),
    {
        proof {
            assert(pending@[0] == orig[sent as int]);
        }
        let it = pending.remove(0);
        match tx.send(it) {
            Ok(_) => {
                sent = sent + 1;
                proof {
                    assert(pending@ =~= orig.subrange(sent as int, orig.len() as int));
                }
            },
            Err(c) => {
                proof {
                    assert(orig.contains(c.item)) by {
                        assert(orig[sent as int] == c.item);
                    }
                }
                return Err(c);
            },
        }
    }
    Ok(sent)
}

/// A producer's whole turn: sends every item, then drops the `Sender` so the
/// producer takes part in the close protocol — once every other sender is
/// gone too, consumers see the channel as closed.
pub fn produce_then_close<T>(tx: Sender<T>, items: Vec<T>) -> (r: Result<usize, Closed<T>>)
    ensures
        r matches Ok(n) ==> n == items@.len(),
        r matches Err(c) ==> items@.contains(c.item),
{
    send_all(&tx, items)
}

/// A consumer's whole turn: receives with the policy's deadline, collecting
/// every delivered item in arrival order, until the channel is permanently
/// closed. A timeout only causes a retry; only the disconnect signal ends
/// the collection. The verifier asks for a termination bound, and whether
/// the channel ever closes is in other tasks' hands, so the loop carries an
/// explicit attempt budget: the second component of the result tells whether
/// the disconnect was observed (`true`) or the budget ran out first
/// (`false`, with the channel still usable for a further call). Which items
/// arrive, and how many, depends on the competing consumers, so no more is
/// promised of the collection than its size bound.
pub fn collect_until_disconnected<T>(
    rx: &Receiver<T>,
    policy: &TimeoutPolicy,
    max_attempts: usize,
) -> (r: (Vec<T>, bool))
    ensures
        r.0@.len() <= max_attempts,
{
    let mut items: Vec<T> = Vec::new();
    let mut attempts: usize = 0;
    while attempts < max_attempts
        invariant
            attempts <= max_attempts,
            items@.len() <= attempts,
        decreases max_attempts - attempts,
    {
        let step = classify(rx.recv_timeout(policy.deadline_ms));
        attempts = attempts + 1;
        match step {
            RecvStep::Deliver(it) => items.push(it),
            RecvStep::Retry => (),
            RecvStep::Shutdown => return (items, true),
        }
    }
    (items, false)
}

} // verus!
