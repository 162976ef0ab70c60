use vstd::prelude::*;

verus! {

/// Nanoseconds in one second.
pub const NANOS_PER_SEC: u64 = 1_000_000_000;

/// The length of one worker cycle at `qps` requests per second, in whole
/// nanoseconds (rounded down).
pub open spec fn interval_of(qps: int) -> int {
    NANOS_PER_SEC as int / qps
}

/// How long a worker sleeps after a request that took `elapsed` nanoseconds:
/// the rest of its cycle, or nothing when it is behind schedule.
pub open spec fn delay_of(qps: int, elapsed: int) -> int {
    if elapsed < interval_of(qps) {
        interval_of(qps) - elapsed
    } else {
        0
    }
}

/// The target cycle length for a per-worker rate, in nanoseconds.
pub fn target_interval_nanos(qps: usize) -> (r: u64)
    requires
        qps >= 1,
    ensures
        r == interval_of(qps as int),
{
    if qps as u128 > NANOS_PER_SEC as u128 {
        proof {
            let n = NANOS_PER_SEC as int;
            let q = qps as int;
            assert(n / q == 0) by (nonlinear_arith)
                requires
                    0 <= n < q,
            ;
        }
        0
    } else {
        NANOS_PER_SEC / (qps as u64)
    }
}

/// The pacing sleep after one request, in nanoseconds. No lost time is made
/// up beyond the current cycle.
pub fn pace_delay_nanos(qps: usize, elapsed_nanos: u64) -> (r: u64)
    requires
        qps >= 1,
    ensures
        r == delay_of(qps as int, elapsed_nanos as int),
{
    let interval = target_interval_nanos(qps);
    if elapsed_nanos < interval {
        interval - elapsed_nanos
    } else {
        0
    }
}

/// A worker whose request takes no longer than its cycle spends exactly one
/// cycle per request, and `qps` cycles fit in one second while one more
/// nanosecond per cycle would not: with negligible latency it issues
/// requests at its configured rate, up to the rounding of one nanosecond
/// per cycle.
pub proof fn lemma_paced_rate(qps: int, elapsed: int)
    requires
        qps >= 1,
        0 <= elapsed <= interval_of(qps),
    ensures
        elapsed + delay_of(qps, elapsed) == interval_of(qps),
        qps * interval_of(qps) <= NANOS_PER_SEC,
        NANOS_PER_SEC < qps * (interval_of(qps) + 1),
{
    let n = NANOS_PER_SEC as int;
    let i = interval_of(qps);
    assert(n == qps * i + n % qps) by (nonlinear_arith)
        requires
            i == n / qps,
            qps >= 1,
    ;
    assert(0 <= n % qps < qps);
    assert(qps * (i + 1) == qps * i + qps) by (nonlinear_arith);
}

} // verus!
