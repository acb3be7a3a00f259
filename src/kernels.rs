//! The workload kernels: what each producer and consumer thread does, the
//! shape of each workload, and the check against its expected count.
//!
//! Spawning and joining the threads is left to the caller; everything a
//! thread decides, and every value it pushes, is here.

use vstd::prelude::*;
use std::sync::atomic::{AtomicI32, Ordering};
use crate::prime::{is_prime, passes_trial_division};
use crate::sync_queue::SyncQueue;

verus! {

/// The integers `0 .. NUM_INTS` are the reference range of the prime
/// workloads.
pub const NUM_INTS: u64 = 2097152;

/// How many integers of the reference range pass `is_prime`.
pub const EXPECTED_PRIMES: i32 = 155886;

/// The integers `0 .. MEM_INTS` are pushed by the memory-heavy workload.
pub const MEM_INTS: u64 = 8388608;

/// A kernel's count differed from its expected value.
#[derive(Clone, Copy, Debug, PartialEq, Eq, Structural)]
pub struct BenchmarkError {
    expected: i32,
    actual: i32,
}

impl BenchmarkError {
    pub fn new(expected: i32, actual: i32) -> (r: BenchmarkError)
        ensures
            r.expected() == expected,
            r.actual() == actual,
    {
        BenchmarkError { expected, actual }
    }

    pub closed spec fn expected(&self) -> i32 {
        self.expected
    }

    pub closed spec fn actual(&self) -> i32 {
        self.actual
    }

    /// The count the kernel expected.
    pub fn expected_count(&self) -> (r: i32)
        ensures
            r == self.expected(),
    {
        self.expected
    }

    /// The count the kernel observed.
    pub fn actual_count(&self) -> (r: i32)
        ensures
            r == self.actual(),
    {
        self.actual
    }
}

/// The four workloads.
#[derive(Clone, Copy, Debug, PartialEq, Eq, Structural)]
pub enum WorkloadType {
    /// One producer fills the queue with the reference range followed by
    /// one sentinel per worker; every worker pops and tests values until it
    /// meets a sentinel or finds the queue empty.
    ReadHeavy,
    /// Every worker tests a stride of the reference range and pushes a
    /// marker for each value that passes; the markers are counted after.
    WriteHeavy,
    /// Half the workers push strides of the reference range followed by
    /// sentinels, half pop and test values until they meet a sentinel.
    Mixed,
    /// Half the workers push strides of a larger range, half pop until
    /// they meet a sentinel; nothing is counted.
    MemoryHeavy,
}

/// The thread counts a run accepts: even, from 2 to 16.
pub open spec fn valid_thread_count(n: int) -> bool {
    2 <= n <= 16 && n % 2 == 0
}

/// Whether `n` is an accepted thread count.
pub fn is_valid_thread_count(n: usize) -> (r: bool)
    ensures
        r == valid_thread_count(n as int),
{
    2 <= n && n <= 16 && n % 2 == 0
}

/// The shape of one workload run.
#[derive(Clone, Copy, Debug, PartialEq, Eq, Structural)]
pub struct WorkPlan {
    /// Producer threads; producer `k` pushes `k, k + stride, ...` below
    /// `end` (for the read-heavy workload, the single producer is the
    /// calling thread and pushes before any consumer starts).
    pub producers: u64,
    /// Consumer threads.
    pub consumers: u64,
    pub stride: u64,
    pub end: u64,
    /// The count the run must observe, if it is checked.
    pub expected: Option<i32>,
}

/// The plan of workload `wt` on `n` worker threads.
pub open spec fn plan_of(wt: WorkloadType, n: int) -> WorkPlan {
    match wt {
        WorkloadType::ReadHeavy => WorkPlan {
            producers: 1,
            consumers: n as u64,
            stride: 1,
            end: (NUM_INTS + n) as u64,
            expected: Some(EXPECTED_PRIMES),
        },
        WorkloadType::WriteHeavy => WorkPlan {
            producers: (n + 1) as u64,
            consumers: 0,
            stride: (n + 1) as u64,
            end: NUM_INTS,
            expected: Some(EXPECTED_PRIMES),
        },
        WorkloadType::Mixed => WorkPlan {
            producers: (n / 2) as u64,
            consumers: (n / 2) as u64,
            stride: (n / 2) as u64,
            end: (NUM_INTS + n / 2 + 1) as u64,
            expected: Some(EXPECTED_PRIMES),
        },
        WorkloadType::MemoryHeavy => WorkPlan {
            producers: (n / 2) as u64,
            consumers: (n / 2) as u64,
            stride: (n / 2) as u64,
            end: (MEM_INTS + n / 2 + 1) as u64,
            expected: None,
        },
    }
}

/// Computes the plan of workload `wt` on `n_threads` workers.
pub fn plan(wt: WorkloadType, n_threads: usize) -> (r: WorkPlan)
    requires
        valid_thread_count(n_threads as int),
    ensures
        r == plan_of(wt, n_threads as int),
{
    let n = n_threads as u64;
    match wt {
        WorkloadType::ReadHeavy => WorkPlan {
            producers: 1,
            consumers: n,
            stride: 1,
            end: NUM_INTS + n,
            expected: Some(EXPECTED_PRIMES),
        },
        WorkloadType::WriteHeavy => WorkPlan {
            producers: n + 1,
            consumers: 0,
            stride: n + 1,
            end: NUM_INTS,
            expected: Some(EXPECTED_PRIMES),
        },
        WorkloadType::Mixed => WorkPlan {
            producers: n / 2,
            consumers: n / 2,
            stride: n / 2,
            end: NUM_INTS + n / 2 + 1,
            expected: Some(EXPECTED_PRIMES),
        },
        WorkloadType::MemoryHeavy => WorkPlan {
            producers: n / 2,
            consumers: n / 2,
            stride: n / 2,
            end: MEM_INTS + n / 2 + 1,
            expected: None,
        },
    }
}

/// How many of `start, start + stride, ...` below `end` satisfy `p`.
pub open spec fn stride_count(start: int, stride: int, end: int, p: spec_fn(int) -> bool) -> nat
    decreases (if start < end {
        end - start
    } else {
        0
    }),
{
    if stride <= 0 || start >= end {
        0
    } else {
        (if p(start) {
            1nat
        } else {
            0nat
        }) + stride_count(start + stride, stride, end, p)
    }
}

/// How many of `start, start + stride, ...` are below `end`.
pub open spec fn stride_len(start: int, stride: int, end: int) -> nat {
    stride_count(start, stride, end, |x: int| true)
}

/// How many of `start, start + stride, ...` below `end` pass trial
/// division.
pub open spec fn stride_passing(start: int, stride: int, end: int) -> nat {
    stride_count(start, stride, end, |x: int| passes_trial_division(x))
}

/// The sum of `stride_count(t, stride, end, p)` over the `k` starts
/// `t = 0 .. k`.
pub open spec fn strided_total(stride: int, end: int, k: int, p: spec_fn(int) -> bool) -> nat
    decreases k,
{
    if k <= 0 {
        0
    } else {
        strided_total(stride, end, k - 1, p) + stride_count(k - 1, stride, end, p)
    }
}

/// Extending the range by the value `e` adds it to the stride that
/// reaches it.
proof fn lemma_stride_count_step(t: int, s: int, e: int, p: spec_fn(int) -> bool)
    requires
        s >= 1,
    ensures
        stride_count(t, s, e + 1, p) == stride_count(t, s, e, p) + (if t <= e && (e - t) % s == 0
            && p(e) {
            1nat
        } else {
            0nat
        }),
    decreases (if t <= e {
        e - t + 1
    } else {
        0
    }),
{
    if t < e {
        lemma_stride_count_step(t + s, s, e, p);
        if t + s <= e {
            vstd::arithmetic::div_mod::lemma_mod_sub_multiples_vanish(e - t, s);
            assert(-s + (e - t) == e - (t + s));
        } else {
            vstd::arithmetic::div_mod::lemma_small_mod((e - t) as nat, s as nat);
        }
    } else if t == e {
        assert(stride_count(t + s, s, e + 1, p) == 0);
        vstd::arithmetic::div_mod::lemma_small_mod(0, s as nat);
    }
}

/// Among the starts `0 .. s`, the one whose stride reaches `e` is `e % s`.
proof fn lemma_reaching_start(k: int, s: int, e: int)
    requires
        s >= 1,
        0 <= k < s,
        e >= 0,
    ensures
        (k <= e && (e - k) % s == 0) <==> k == e % s,
{
    vstd::arithmetic::div_mod::lemma_fundamental_div_mod(e, s);
    vstd::arithmetic::div_mod::lemma_div_pos_is_pos(e, s);
    if k == e % s {
        assert(e - k == (e / s) * s) by (nonlinear_arith)
            requires
                e == s * (e / s) + k,
        ;
        vstd::arithmetic::div_mod::lemma_mod_multiples_basic(e / s, s);
    }
    if k <= e && (e - k) % s == 0 {
        vstd::arithmetic::div_mod::lemma_fundamental_div_mod(e - k, s);
        let q = (e - k) / s;
        assert(e == q * s + k) by (nonlinear_arith)
            requires
                e - k == s * q + 0,
        ;
        vstd::arithmetic::div_mod::lemma_fundamental_div_mod_converse_mod(e, s, q, k);
    }
}

proof fn lemma_strided_total_step(s: int, e: int, k: int, p: spec_fn(int) -> bool)
    requires
        s >= 1,
        e >= 0,
        0 <= k <= s,
    ensures
        strided_total(s, e + 1, k, p) == strided_total(s, e, k, p) + (if p(e) && e % s < k {
            1nat
        } else {
            0nat
        }),
    decreases k,
{
    if k > 0 {
        lemma_strided_total_step(s, e, k - 1, p);
        lemma_stride_count_step(k - 1, s, e, p);
        lemma_reaching_start(k - 1, s, e);
    }
}

proof fn lemma_strided_total_empty(s: int, k: int, p: spec_fn(int) -> bool)
    ensures
        strided_total(s, 0, k, p) == 0,
    decreases k,
{
    if k > 0 {
        lemma_strided_total_empty(s, k - 1, p);
    }
}

/// Striding partitions a range: the `stride` sequences `t, t + stride, ...`
/// for `t = 0 .. stride` together meet every value below `end` exactly
/// once, so whatever they count adds up to the count over the whole range.
/// In particular the write-heavy producers push as many markers as there
/// are passing values in the reference range, and the mixed and
/// memory-heavy producers push every value of theirs once.
pub proof fn lemma_strides_partition(stride: int, end: int, p: spec_fn(int) -> bool)
    requires
        stride >= 1,
        end >= 0,
    ensures
        strided_total(stride, end, stride, p) == stride_count(0, 1, end, p),
    decreases end,
{
    if end == 0 {
        lemma_strided_total_empty(stride, stride, p);
    } else {
        lemma_strides_partition(stride, end - 1, p);
        lemma_strided_total_step(stride, end - 1, stride, p);
        lemma_stride_count_step(0, 1, end - 1, p);
        vstd::arithmetic::div_mod::lemma_mod_pos_bound(end - 1, stride);
    }
}

/// Pushes `start, start + stride, ...` below `end`, in that order; returns
/// how many were pushed.
pub fn push_stride<Q: SyncQueue<u64>>(q: &Q, start: u64, stride: u64, end: u64) -> (pushed: u64)
    requires
        stride > 0,
    ensures
        pushed == stride_len(start as int, stride as int, end as int),
{
    let mut i = start;
    let mut pushed: u64 = 0;
    while i < end
        invariant
            stride > 0,
            start <= i,
            pushed <= i - start,
            pushed + stride_len(i as int, stride as int, end as int) == stride_len(
                start as int,
                stride as int,
                end as int,
            ),
        decreases end - i,
    {
        q.push(i);
        pushed = pushed + 1;
        if end - i <= stride {
            assert(stride_len(i + stride, stride as int, end as int) == 0);
            i = end;
        } else {
            i = i + stride;
        }
    }
    pushed
}

/// Tests `start, start + stride, ...` below `end` and pushes the marker 1
/// for each value that passes; returns how many markers were pushed.
pub fn push_prime_markers<Q: SyncQueue<u64>>(q: &Q, start: u64, stride: u64, end: u64) -> (pushed:
    u64)
    requires
        stride > 0,
    ensures
        pushed == stride_passing(start as int, stride as int, end as int),
{
    let mut i = start;
    let mut pushed: u64 = 0;
    while i < end
        invariant
            stride > 0,
            start <= i,
            pushed <= i - start,
            pushed + stride_passing(i as int, stride as int, end as int) == stride_passing(
                start as int,
                stride as int,
                end as int,
            ),
        decreases end - i,
    {
        if is_prime(i) {
            q.push(1);
            pushed = pushed + 1;
        }
        if end - i <= stride {
            assert(stride_passing(i + stride, stride as int, end as int) == 0);
            i = end;
        } else {
            i = i + stride;
        }
    }
    pushed
}

/// What a consumer does with the result of one pop.
#[derive(Clone, Copy, Debug, PartialEq, Eq, Structural)]
pub enum ConsumerStep {
    /// Leave the loop.
    Stop,
    /// The queue was empty: sleep a short fixed interval, then pop again.
    Wait,
    /// A value to keep working on; `found_prime` says whether it adds one
    /// to the workload's count.
    Take { found_prime: bool },
}

/// The consumer's decision in workload `wt` for the result of one pop.
///
/// Read-heavy: a value from `NUM_INTS` on is a sentinel, and an empty
/// queue also ends the work. Mixed: a value above `NUM_INTS` is a sentinel. Memory-heavy: a value from `MEM_INTS` on is a
/// sentinel, and nothing is counted. Write-heavy has no consumers; its
/// markers are drained after the producers finish.
pub fn consumer_step(wt: WorkloadType, popped: Option<u64>) -> (r: ConsumerStep)
    ensures
        popped is None ==> r == (if wt == WorkloadType::Mixed || wt == WorkloadType::MemoryHeavy {
            ConsumerStep::Wait
        } else {
            ConsumerStep::Stop
        }),
        popped is Some ==> ({
            let x = popped->Some_0 as int;
            r == match wt {
                WorkloadType::Mixed => if x > NUM_INTS {
                    ConsumerStep::Stop
                } else {
                    ConsumerStep::Take { found_prime: passes_trial_division(x) }
                },
                WorkloadType::MemoryHeavy => if x >= MEM_INTS {
                    ConsumerStep::Stop
                } else {
                    ConsumerStep::Take { found_prime: false }
                },
                _ => if x >= NUM_INTS {
                    ConsumerStep::Stop
                } else {
                    ConsumerStep::Take { found_prime: passes_trial_division(x) }
                },
            }
        }),
{
    match popped {
        None => match wt {
            WorkloadType::Mixed | WorkloadType::MemoryHeavy => ConsumerStep::Wait,
            _ => ConsumerStep::Stop,
        },
        Some(x) => match wt {
            WorkloadType::Mixed => {
                if x > NUM_INTS {
                    ConsumerStep::Stop
                } else {
                    ConsumerStep::Take { found_prime: is_prime(x) }
                }
            },
            WorkloadType::MemoryHeavy => {
                if x >= MEM_INTS {
                    ConsumerStep::Stop
                } else {
                    ConsumerStep::Take { found_prime: false }
                }
            },
            _ => {
                if x >= NUM_INTS {
                    ConsumerStep::Stop
                } else {
                    ConsumerStep::Take { found_prime: is_prime(x) }
                }
            },
        },
    }
}

/// A read-heavy consumer: pops and tests values until it meets a sentinel
/// or finds the queue empty, adding one to `primes` (relaxed) for each
/// value that passes. The queue was filled before any consumer started, so
/// at most `max_pops` values (what was pushed) can come out. Returns how
/// many values it tested.
pub fn read_worker<Q: SyncQueue<u64>>(q: &Q, max_pops: u64, primes: &AtomicI32) -> (taken: u64)
    ensures
        taken <= max_pops,
{
    let mut taken: u64 = 0;
    while taken < max_pops
        invariant
            taken <= max_pops,
        decreases max_pops - taken,
    {
        match consumer_step(WorkloadType::ReadHeavy, q.pop()) {
            ConsumerStep::Take { found_prime } => {
                if found_prime {
                    primes.fetch_add(1, Ordering::Relaxed);
                }
                taken = taken + 1;
            },
            _ => {
                break ;
            },
        }
    }
    taken
}

/// Pops until the queue is empty, at most `max` times, and returns how
/// many values came out.
pub fn drain_count<Q: SyncQueue<u64>>(q: &Q, max: i32) -> (r: i32)
    requires
        max >= 0,
    ensures
        0 <= r <= max,
{
    let mut n: i32 = 0;
    while n < max
        invariant
            0 <= n <= max,
        decreases max - n,
    {
        match q.pop() {
            Some(_) => {
                n = n + 1;
            },
            None => {
                break ;
            },
        }
    }
    n
}

/// The oracle check: success with the count when it is the expected one.
pub fn check_count(expected: i32, actual: i32) -> (r: Result<i32, BenchmarkError>)
    ensures
        expected == actual ==> r == Ok::<i32, BenchmarkError>(actual),
        expected != actual ==> r is Err && r->Err_0.expected() == expected && r->Err_0.actual()
            == actual,
{
    if actual == expected {
        Ok(actual)
    } else {
        Err(BenchmarkError::new(expected, actual))
    }
}

} // verus!
