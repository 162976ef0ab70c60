use vstd::prelude::*;
use crate::config::{ConfigError, Method, RunConfig, sizing_error};
use crate::limiter::permits_of;
use crate::counters::{Attempt, Counters, succeeded};
use crate::pacing::{delay_of, pace_delay_nanos, NANOS_PER_SEC};

verus! {

/// What a worker does next, as decided at the top of its cycle.
#[derive(Clone, Copy, Debug, PartialEq, Eq, Structural)]
pub enum Step {
    /// A limiter slot is taken: send one request.
    Dispatch,
    /// The limiter is full: try again once a slot frees.
    Wait,
    /// The run is over for this worker.
    Exit,
}

/// The abstract state of a run.
pub struct EngineView {
    pub config: RunConfig,
    /// Slots of the concurrency limiter.
    pub capacity: nat,
    /// Requests dispatched so far.
    pub started: nat,
    /// Requests dispatched and not yet resolved.
    pub in_flight: nat,
    pub counters: Counters,
    pub stopped: bool,
}

/// One run: the limiter, the counters and the stop flag shared by all workers.
pub struct Engine {
    config: RunConfig,
    capacity: usize,
    started: u64,
    in_flight: usize,
    counters: Counters,
    stopped: bool,
}

/// The figures of a finished run.
#[derive(Clone, Debug)]
pub struct RunResult {
    pub url: String,
    pub method: Method,
    pub success: u64,
    pub failure: u64,
    pub expected_global_qps: usize,
    /// Wall time of the run, in nanoseconds.
    pub wall_nanos: u64,
    /// Achieved requests per second, in hundredths, rounded down.
    pub actual_qps_centi: u128,
}

/// Achieved rate in hundredths of a request per second: `total` requests in
/// `wall_nanos` nanoseconds, zero for a run that took no time.
pub open spec fn centi_rate(total: int, wall_nanos: int) -> int {
    if wall_nanos == 0 {
        0
    } else {
        total * 100 * NANOS_PER_SEC / wall_nanos
    }
}

impl View for Engine {
    type V = EngineView;

    closed spec fn view(&self) -> EngineView {
        EngineView {
            config: self.config,
            capacity: self.capacity as nat,
            started: self.started as nat,
            in_flight: self.in_flight as nat,
            counters: self.counters,
            stopped: self.stopped,
        }
    }
}

/// The run's invariant: the limiter never holds more than its capacity, which
/// is the global rate target, and every dispatched request is either still
/// in flight or counted exactly once.
pub open spec fn engine_inv(v: EngineView) -> bool {
    &&& v.config.valid()
    &&& v.capacity == v.config.global_qps()
    &&& v.in_flight <= v.capacity
    &&& v.counters.total() + v.in_flight == v.started
    &&& v.started <= u64::MAX
}

/// The decision at the top of a worker cycle and the state after it.
pub open spec fn begin_step(v: EngineView) -> (Step, EngineView) {
    if v.stopped || v.started >= u64::MAX {
        (Step::Exit, v)
    } else if v.in_flight >= v.capacity {
        (Step::Wait, v)
    } else {
        (Step::Dispatch, EngineView { started: v.started + 1, in_flight: v.in_flight + 1, ..v })
    }
}

/// The state after a request resolves with `a`: its slot is free and exactly
/// one counter has grown by one.
pub open spec fn finish_step(v: EngineView, a: Attempt) -> EngineView {
    EngineView {
        in_flight: (v.in_flight - 1) as nat,
        counters: if succeeded(a) {
            Counters { success: (v.counters.success + 1) as u64, ..v.counters }
        } else {
            Counters { failure: (v.counters.failure + 1) as u64, ..v.counters }
        },
        ..v
    }
}

/// The state after the stop signal.
pub open spec fn stop_step(v: EngineView) -> EngineView {
    EngineView { stopped: true, ..v }
}

/// Every transition keeps the run's invariant: the limiter never admits more
/// requests than its capacity, the global rate target, and the two counters
/// always add up to the number of attempts that have resolved, that is, those
/// dispatched and no longer in flight.
pub proof fn lemma_invariant_kept(v: EngineView, a: Attempt)
    requires
        engine_inv(v),
    ensures
        engine_inv(begin_step(v).1),
        begin_step(v).1.in_flight <= v.capacity,
        v.in_flight > 0 ==> engine_inv(finish_step(v, a)),
        v.in_flight > 0 ==> finish_step(v, a).counters.total() == v.counters.total() + 1,
        engine_inv(stop_step(v)),
        v.counters.total() == v.started - v.in_flight,
{
}

/// Once the stop signal is taken, no worker is ever sent to dispatch again:
/// every cycle's decision is to exit, and no transition clears the signal.
pub proof fn lemma_stop_is_final(v: EngineView, a: Attempt)
    requires
        v.stopped,
    ensures
        begin_step(v) == (Step::Exit, v),
        begin_step(stop_step(v)).0 == Step::Exit,
        finish_step(v, a).stopped,
        stop_step(v).stopped,
{
}

impl Engine {
    /// The run's invariant on this engine.
    pub open spec fn wf(&self) -> bool {
        engine_inv(self@)
    }

    /// Starts a run: checks the configuration and sets up an empty limiter of
    /// `worker_count * per_worker_qps` slots and zeroed counters.
    pub fn start(config: RunConfig) -> (r: Result<Engine, ConfigError>)
        ensures
            match sizing_error(config.worker_count as int, config.per_worker_qps as int) {
                Some(e) => r == Err::<Engine, ConfigError>(e),
                None => r is Ok && r->Ok_0.wf() && r->Ok_0@ == (EngineView {
                    config,
                    capacity: config.global_qps() as nat,
                    started: 0,
                    in_flight: 0,
                    counters: Counters { success: 0, failure: 0 },
                    stopped: false,
                }),
            },
    {
        match config.validate() {
            Err(e) => Err(e),
            Ok(()) => {
                let capacity = config.expected_global_qps();
                Ok(Engine {
                    config,
                    capacity,
                    started: 0,
                    in_flight: 0,
                    counters: Counters::new(),
                    stopped: false,
                })
            },
        }
    }

    /// A fresh slot pool sized to the limiter's capacity, for workers to wait on.
    pub fn open_limiter(&self) -> (r: tokio::sync::Semaphore)
        requires
            self.wf(),
        ensures
            permits_of(r) == self@.capacity,
    {
        let n = self.capacity;
        let max = usize::MAX;
        assert(max >> 3 == max / 8) by (bit_vector);
        tokio::sync::Semaphore::new(n)
    }

    /// The configuration of the run.
    pub fn config(&self) -> (r: &RunConfig)
        ensures
            *r == self@.config,
    {
        &self.config
    }

    /// The limiter's capacity.
    pub fn capacity(&self) -> (r: usize)
        ensures
            r == self@.capacity,
    {
        self.capacity
    }

    /// Requests dispatched and not yet resolved.
    pub fn in_flight(&self) -> (r: usize)
        ensures
            r == self@.in_flight,
    {
        self.in_flight
    }

    /// The counters as they stand.
    pub fn counters(&self) -> (r: Counters)
        ensures
            r == self@.counters,
    {
        self.counters
    }

    /// Whether the stop signal has been seen.
    pub fn is_stopped(&self) -> (r: bool)
        ensures
            r == self@.stopped,
    {
        self.stopped
    }

    /// The top of a worker cycle. After the stop signal, or once the
    /// request count can grow no further, the worker exits and nothing
    /// changes; with the limiter full it waits; otherwise it takes a slot and
    /// dispatches.
    pub fn begin(&mut self) -> (r: Step)
        requires
            old(self).wf(),
        ensures
            final(self).wf(),
            (r, final(self)@) == begin_step(old(self)@),
    {
        if self.stopped || self.started == u64::MAX {
            Step::Exit
        } else if self.in_flight == self.capacity {
            Step::Wait
        } else {
            self.started = self.started + 1;
            self.in_flight = self.in_flight + 1;
            Step::Dispatch
        }
    }

    /// The end of a request: frees its slot, counts its outcome once, and
    /// returns the pacing sleep in nanoseconds for a request that took
    /// `elapsed_nanos`.
    pub fn finish(&mut self, a: Attempt, elapsed_nanos: u64) -> (r: u64)
        requires
            old(self).wf(),
            old(self)@.in_flight > 0,
        ensures
            final(self).wf(),
            final(self)@ == finish_step(old(self)@, a),
            r == delay_of(old(self)@.config.per_worker_qps as int, elapsed_nanos as int),
    {
        self.counters.record(a);
        self.in_flight = self.in_flight - 1;
        pace_delay_nanos(self.config.per_worker_qps, elapsed_nanos)
    }

    /// Takes the stop signal: from now on every worker exits at the top of
    /// its next cycle.
    pub fn stop(&mut self)
        requires
            old(self).wf(),
        ensures
            final(self).wf(),
            final(self)@ == stop_step(old(self)@),
    {
        self.stopped = true;
    }

    /// The figures of the run after `wall_nanos` nanoseconds.
    pub fn report(&self, wall_nanos: u64) -> (r: RunResult)
        requires
            self.wf(),
        ensures
            r.url == self@.config.url,
            r.method == self@.config.method,
            r.success == self@.counters.success,
            r.failure == self@.counters.failure,
            r.expected_global_qps == self@.capacity,
            r.wall_nanos == wall_nanos,
            r.actual_qps_centi == centi_rate(self@.counters.total(), wall_nanos as int),
    {
        let total = self.counters.total_count();
        RunResult {
            url: self.config.url.clone(),
            method: self.config.method,
            success: self.counters.success,
            failure: self.counters.failure,
            expected_global_qps: self.capacity,
            wall_nanos,
            actual_qps_centi: actual_qps_centi(total, wall_nanos),
        }
    }
}

/// Achieved rate in hundredths of a request per second.
pub fn actual_qps_centi(total: u64, wall_nanos: u64) -> (r: u128)
    ensures
        r == centi_rate(total as int, wall_nanos as int),
{
    if wall_nanos == 0 {
        0
    } else {
        assert((total as int) * 100 * (NANOS_PER_SEC as int) <= u128::MAX) by (nonlinear_arith)
            requires
                total as int <= u64::MAX,
                NANOS_PER_SEC as int == 1_000_000_000,
        ;
        let scaled: u128 = (total as u128) * 100 * (NANOS_PER_SEC as u128);
        scaled / (wall_nanos as u128)
    }
}

} // verus!
