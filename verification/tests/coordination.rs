use worker_coord::channel::{create, Disconnected, RecvError};
use worker_coord::coordinator::{
    collect_until_disconnected, produce_then_close, run_all, send_all, Coordinator, Report,
};
use worker_coord::task::{spawn, TaskFailure};
use worker_coord::timeout::{classify, RecvStep, TimeoutPolicy};
use worker_coord::workload::{expensive_sum, run_expensive_sum};

const BUDGET: usize = 1_000_000;

#[test]
fn single_sender_fifo_order() {
    let (tx, rx) = create::<i32>();
    let items: Vec<i32> = (0..100).collect();
    let sent = send_all(&tx, items.clone()).expect("open channel accepts sends");
    assert_eq!(sent, 100);
    drop(tx);
    let mut got: Vec<i32> = Vec::new();
    loop {
        match rx.recv() {
            Ok(v) => got.push(v),
            Err(Disconnected) => break,
        }
    }
    assert_eq!(got, items);
}

#[test]
fn two_producers_fifo_per_sender() {
    let (tx, rx) = create::<(i32, i32)>();
    let tx2 = tx.clone();
    let a = spawn(move || {
        let items: Vec<(i32, i32)> = (0..50).map(|i| (1, i)).collect();
        produce_then_close(tx, items).expect("receiver stays alive")
    });
    let b = spawn(move || {
        let items: Vec<(i32, i32)> = (0..50).map(|i| (2, i)).collect();
        produce_then_close(tx2, items).expect("receiver stays alive")
    });
    let mut got: Vec<(i32, i32)> = Vec::new();
    loop {
        match rx.recv() {
            Ok(v) => got.push(v),
            Err(Disconnected) => break,
        }
    }
    assert_eq!(a.join(), Ok(50));
    assert_eq!(b.join(), Ok(50));
    let from_a: Vec<i32> = got.iter().filter(|p| p.0 == 1).map(|p| p.1).collect();
    let from_b: Vec<i32> = got.iter().filter(|p| p.0 == 2).map(|p| p.1).collect();
    let expected: Vec<i32> = (0..50).collect();
    assert_eq!(from_a, expected, "items of the first sender arrive in send order");
    assert_eq!(from_b, expected, "items of the second sender arrive in send order");
}

#[test]
fn recv_after_close_is_disconnected_even_with_clones() {
    let (tx, rx) = create::<i32>();
    let tx2 = tx.clone();
    let tx3 = tx2.clone();
    drop(tx);
    drop(tx2);
    drop(tx3);
    assert_eq!(rx.recv(), Err(Disconnected));
    assert_eq!(rx.recv_timeout(50), Err(RecvError::Disconnected));
}

#[test]
fn buffered_items_still_delivered_after_close() {
    let (tx, rx) = create::<&'static str>();
    tx.send("x").unwrap();
    tx.send("y").unwrap();
    drop(tx);
    assert_eq!(rx.recv(), Ok("x"));
    assert_eq!(rx.recv_timeout(50), Ok("y"));
    assert_eq!(rx.recv(), Err(Disconnected));
}

#[test]
fn send_fails_with_item_back_once_receivers_are_gone() {
    let (tx, rx) = create::<i32>();
    drop(rx);
    let err = tx.send(7).expect_err("no receiver remains");
    assert_eq!(err.item, 7);
    let err = send_all(&tx, vec![1, 2, 3]).expect_err("no receiver remains");
    assert_eq!(err.item, 1);
}

#[test]
fn timeout_leaves_channel_usable() {
    let (tx, rx) = create::<i32>();
    let started = std::time::Instant::now();
    assert_eq!(rx.recv_timeout(200), Err(RecvError::Timeout));
    let waited = started.elapsed();
    assert!(waited >= std::time::Duration::from_millis(100), "deadline elapsed before Timeout");
    tx.send(9).unwrap();
    assert_eq!(rx.recv_timeout(200), Ok(9));
    assert_eq!(rx.recv_timeout(50), Err(RecvError::Timeout), "still open, still retryable");
}

#[test]
fn classify_follows_the_policy() {
    assert_eq!(classify(Ok(5)), RecvStep::Deliver(5));
    assert_eq!(classify::<i32>(Err(RecvError::Timeout)), RecvStep::Retry);
    assert_eq!(classify::<i32>(Err(RecvError::Disconnected)), RecvStep::Shutdown);
}

#[test]
fn timeout_policy_keeps_its_deadline() {
    let p = TimeoutPolicy::new(250);
    assert_eq!(p.deadline_ms, 250);
}

#[test]
fn join_returns_the_task_value_once() {
    let h = spawn(|| -> i32 { 42 });
    assert_eq!(h.join(), Ok(42));
    // The handle is consumed by join: a second join does not compile.
}

#[test]
fn panicking_task_reports_failure_without_stopping_the_rest() {
    let mut c = Coordinator::new();
    c.register(spawn(|| -> i32 { 10 }));
    c.register(spawn(|| -> i32 { panic!("worker fault") }));
    c.register(spawn(|| -> i32 { 30 }));
    assert_eq!(c.worker_count(), 3);
    let report = c.join_all();
    assert_eq!(report.len(), 3);
    assert_eq!(report.failure_count(), 1);
    assert!(!report.all_succeeded());
    let outcomes = report.into_outcomes();
    assert_eq!(outcomes[0], Ok(10));
    assert_eq!(outcomes[1], Err(TaskFailure));
    assert_eq!(outcomes[2], Ok(30));
}

#[test]
fn spawn_worker_keeps_earlier_workers() {
    let mut c = Coordinator::new();
    c.spawn_worker(|| -> i32 { 5 });
    c.spawn_worker(|| -> i32 { 6 });
    assert_eq!(c.worker_count(), 2);
    let report = c.join_all();
    assert_eq!(report.successes(), vec![5, 6]);
}

#[test]
fn join_all_keeps_registration_order() {
    let mut c = Coordinator::new();
    for i in 0..5 {
        let i: i32 = i;
        c.register(spawn(move || -> i32 { i * i }));
    }
    let report = c.join_all();
    assert!(report.all_succeeded());
    assert_eq!(report.successes(), vec![0, 1, 4, 9, 16]);
}

#[test]
fn run_all_joins_every_job() {
    let mut jobs = Vec::new();
    for i in 0..4 {
        let i: i32 = i;
        jobs.push(move || -> i32 { i + 100 });
    }
    let report = run_all(jobs);
    assert_eq!(report.len(), 4);
    assert_eq!(report.failure_count(), 0);
    assert_eq!(report.successes(), vec![100, 101, 102, 103]);
}

#[test]
fn report_aggregates_without_threads() {
    let report = Report::from_outcomes(vec![Ok(1), Err(TaskFailure), Ok(3), Err(TaskFailure)]);
    assert_eq!(report.len(), 4);
    assert_eq!(report.failure_count(), 2);
    assert!(!report.all_succeeded());
    assert_eq!(report.successes(), vec![1, 3]);

    let empty: Report<i32> = Report::from_outcomes(Vec::new());
    assert_eq!(empty.len(), 0);
    assert_eq!(empty.failure_count(), 0);
    assert!(empty.all_succeeded());
}

#[test]
fn fan_out_delivers_each_item_to_exactly_one_consumer() {
    let (tx, rx) = create::<&'static str>();
    let rx2 = rx.clone();
    let producer = spawn(move || {
        produce_then_close(tx, vec!["A", "B", "C", "D", "E", "F"]).expect("receivers are alive")
    });
    let consumer1 = spawn(move || collect_until_disconnected(&rx, &TimeoutPolicy::new(1000), BUDGET));
    let consumer2 = spawn(move || collect_until_disconnected(&rx2, &TimeoutPolicy::new(1000), BUDGET));
    assert_eq!(producer.join(), Ok(6));
    let (got1, closed1) = consumer1.join().expect("consumer runs to completion");
    let (got2, closed2) = consumer2.join().expect("consumer runs to completion");
    assert!(closed1, "first consumer observes the disconnect");
    assert!(closed2, "second consumer observes the disconnect");
    let mut union: Vec<&'static str> = Vec::new();
    union.extend(got1.iter().copied());
    union.extend(got2.iter().copied());
    union.sort();
    assert_eq!(union, vec!["A", "B", "C", "D", "E", "F"]);
}

#[test]
fn expensive_sum_matches_the_formula() {
    assert_eq!(expensive_sum(vec![2, 5, 1, 0, 4, 3]), 20);
    assert_eq!(expensive_sum(Vec::new()), 0);
    assert_eq!(expensive_sum(vec![1, 3, 5]), 0);
    assert_eq!(expensive_sum(vec![-2, 3]), 4);
    assert_eq!(expensive_sum(vec![0]), 0);
    assert_eq!(expensive_sum(vec![6]), 36);
}

#[test]
fn expensive_sum_as_spawned_task() {
    let v: Vec<i32> = vec![2, 5, 1, 0, 4, 3];
    let handle = spawn(move || expensive_sum(v));
    let mut letters: Vec<String> = Vec::new();
    for letter in ["a", "b", "c", "d", "e", "f"] {
        letters.push(format!("processing {}", letter));
    }
    assert_eq!(letters.len(), 6, "the spawning task finished its own work");
    assert_eq!(handle.join(), Ok(20));
    assert_eq!(run_expensive_sum(vec![2, 5, 1, 0, 4, 3]), Ok(20));
}
