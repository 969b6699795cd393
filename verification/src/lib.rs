//! Fan-in/fan-out worker coordination: an unbounded multi-producer
//! multi-consumer channel with explicit close semantics, joinable worker
//! tasks, a coordinator that drives a set of workers to completion, and a
//! timeout policy for receive loops.

pub mod channel;
pub mod coordinator;
pub mod task;
pub mod timeout;
pub mod workload;
