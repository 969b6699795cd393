//! A sample unit of work for worker tasks: summing the squares of the even
//! entries of a vector. Its contract pins the result to a spec-level sum, so
//! a coordinator spawning it can reason about the value a join returns.

use vstd::prelude::*;
use crate::task::{spawn, TaskFailure};

verus! {

/// Whether `x` is even.
pub open spec fn is_even(x: i32) -> bool {
    x % 2 == 0
}

/// The square of `x` when `x` is even, otherwise zero.
pub open spec fn square_if_even(x: i32) -> int {
    if is_even(x) {
        (x as int) * (x as int)
    } else {
        0
    }
}

/// Sum of the squares of the even entries of `s`.
pub open spec fn sum_sq_even(s: Seq<i32>) -> int
    decreases s.len(),
{
    if s.len() == 0 {
        0
    } else {
        sum_sq_even(s.drop_last()) + square_if_even(s.last())
    }
}

proof fn lemma_square_if_even_nonneg(x: i32)
    ensures
        square_if_even(x) >= 0,
{
    assert((x as int) * (x as int) >= 0) by (nonlinear_arith);
}

proof fn lemma_sum_sq_even_nonneg(s: Seq<i32>)
    ensures
        sum_sq_even(s) >= 0,
    decreases s.len(),
{
    if s.len() > 0 {
        lemma_sum_sq_even_nonneg(s.drop_last());
        lemma_square_if_even_nonneg(s.last());
    }
}

proof fn lemma_sum_sq_even_take_step(s: Seq<i32>, i: int)
    requires
        0 <= i < s.len(),
    ensures
        sum_sq_even(s.take(i + 1)) == sum_sq_even(s.take(i)) + square_if_even(s[i]),
{
    assert(s.take(i + 1).drop_last() =~= s.take(i));
    assert(s.take(i + 1).last() == s[i]);
}

proof fn lemma_sum_sq_even_prefix_le(s: Seq<i32>, i: int)
    requires
        0 <= i <= s.len(),
    ensures
        sum_sq_even(s.take(i)) <= sum_sq_even(s),
    decreases s.len() - i,
{
    if i == s.len() {
        assert(s.take(i) =~= s);
    } else {
        lemma_sum_sq_even_take_step(s, i);
        lemma_square_if_even_nonneg(s[i]);
        lemma_sum_sq_even_prefix_le(s, i + 1);
    }
}

/// Sums the squares of the even entries of `v`, the workload the exercises
/// run inside a spawned task.
pub fn expensive_sum(v: Vec<i32>) -> (sum: i32)
    requires
        sum_sq_even(v@) <= i32::MAX,
    ensures
        sum == sum_sq_even(v@),
{
    let mut acc: i32 = 0;
    let mut i: usize = 0;
    while i < v.len()
        invariant
            0 <= i <= v.len(),
            sum_sq_even(v@) <= i32::MAX,
            acc == sum_sq_even(v@.take(i as int)),
        decreases v.len() - i,
    {
        let x: i32 = v[i];
        proof {
            lemma_sum_sq_even_take_step(v@, i as int);
            lemma_sum_sq_even_prefix_le(v@, i as int + 1);
            lemma_sum_sq_even_nonneg(v@.take(i as int));
            lemma_square_if_even_nonneg(x);
        }
        if x % 2 == 0 {
            acc = acc + x * x;
        }
        i = i + 1;
    }
    proof {
        assert(v@.take(v@.len() as int) =~= v@);
    }
    acc
}

/// Runs [`expensive_sum`] as a spawned task and joins it: the caller is free
/// to do unrelated work between the spawn and the join. A successful join
/// yields exactly the sum the workload's contract pins down; an abnormal
/// termination is reported as [`TaskFailure`] instead of crashing the caller.
pub fn run_expensive_sum(v: Vec<i32>) -> (r: Result<i32, TaskFailure>)
    requires
        sum_sq_even(v@) <= i32::MAX,
    ensures
        r matches Ok(sum) ==> sum == sum_sq_even(v@),
{
    let ghost vs = v@;
    let job = move || -> (sum: i32)
        ensures
            sum == sum_sq_even(vs),
        {
            expensive_sum(v)
        };
    let handle = spawn(job);
    handle.join()
}

} // verus!
