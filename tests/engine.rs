use loadgen::config::{ConfigError, Method, RunConfig};
use loadgen::counters::Attempt;
use loadgen::engine::{actual_qps_centi, Engine, RunResult, Step};

fn config(workers: usize, qps: usize) -> RunConfig {
    RunConfig::new("http://x/ok".to_string(), "GET", String::new(), workers, qps).unwrap()
}

/// Runs `workers` workers in lock step for `cycles` cycles each, every request
/// resolving at once with `outcome`, then stops after one second.
fn simulate(outcome: Attempt, cycles: usize) -> RunResult {
    let mut e = Engine::start(config(2, 5)).unwrap();
    let mut clock = vec![0u64; 2];
    for _ in 0..cycles {
        for w in 0..2 {
            assert_eq!(e.begin(), Step::Dispatch);
            clock[w] += e.finish(outcome, 0);
        }
    }
    assert_eq!(clock, vec![1_000_000_000, 1_000_000_000]);
    e.stop();
    assert_eq!(e.begin(), Step::Exit);
    e.report(1_000_000_000)
}

#[test]
fn all_ok_run() {
    let r = simulate(Attempt::Responded(200), 5);
    assert_eq!(r.url, "http://x/ok");
    assert_eq!(r.method, Method::Get);
    assert_eq!(r.success, 10);
    assert_eq!(r.failure, 0);
    assert_eq!(r.expected_global_qps, 10);
    assert_eq!(r.wall_nanos, 1_000_000_000);
    assert_eq!(r.actual_qps_centi, 1000);
}

#[test]
fn all_500_run() {
    let r = simulate(Attempt::Responded(500), 5);
    assert_eq!(r.success, 0);
    assert_eq!(r.failure, 10);
    assert_eq!(r.actual_qps_centi, 1000);
}

#[test]
fn unreachable_run() {
    let r = simulate(Attempt::Unreachable, 5);
    assert_eq!(r.success, 0);
    assert_eq!(r.failure, 10);
}

#[test]
fn start_refuses_bad_sizing() {
    let mut c = config(2, 5);
    c.worker_count = 0;
    assert!(matches!(Engine::start(c), Err(ConfigError::NoWorkers)));
    let mut c = config(2, 5);
    c.per_worker_qps = 0;
    assert!(matches!(Engine::start(c), Err(ConfigError::NoRate)));
}

#[test]
fn fresh_engine() {
    let e = Engine::start(config(3, 4)).unwrap();
    assert_eq!(e.capacity(), 12);
    assert_eq!(e.in_flight(), 0);
    assert_eq!(e.counters().success, 0);
    assert_eq!(e.counters().failure, 0);
    assert!(!e.is_stopped());
    assert_eq!(e.config().worker_count, 3);
}

#[test]
fn limiter_admits_up_to_capacity() {
    let mut e = Engine::start(config(1, 2)).unwrap();
    assert_eq!(e.begin(), Step::Dispatch);
    assert_eq!(e.begin(), Step::Dispatch);
    assert_eq!(e.in_flight(), 2);
    assert_eq!(e.begin(), Step::Wait);
    assert_eq!(e.in_flight(), 2);
    assert_eq!(e.finish(Attempt::Responded(200), 100_000_000), 400_000_000);
    assert_eq!(e.in_flight(), 1);
    assert_eq!(e.begin(), Step::Dispatch);
    assert_eq!(e.begin(), Step::Wait);
}

#[test]
fn counts_match_resolved_attempts() {
    let mut e = Engine::start(config(2, 3)).unwrap();
    for _ in 0..4 {
        assert_eq!(e.begin(), Step::Dispatch);
    }
    e.finish(Attempt::Responded(200), 0);
    e.finish(Attempt::Unreachable, 0);
    e.finish(Attempt::Responded(302), 0);
    let c = e.counters();
    assert_eq!(c.success + c.failure, 3);
    assert_eq!(e.in_flight(), 1);
    e.stop();
    e.finish(Attempt::Responded(200), 0);
    let c = e.counters();
    assert_eq!((c.success, c.failure), (2, 2));
    assert_eq!(e.in_flight(), 0);
}

#[test]
fn no_dispatch_after_stop() {
    let mut e = Engine::start(config(2, 5)).unwrap();
    assert_eq!(e.begin(), Step::Dispatch);
    e.stop();
    assert!(e.is_stopped());
    for _ in 0..5 {
        assert_eq!(e.begin(), Step::Exit);
    }
    assert_eq!(e.in_flight(), 1);
    assert_eq!(e.finish(Attempt::Responded(200), 0), 200_000_000);
    assert_eq!(e.begin(), Step::Exit);
}

#[test]
fn limiter_sized_to_capacity() {
    let e = Engine::start(config(2, 5)).unwrap();
    let g = e.open_limiter();
    assert_eq!(g.available_permits(), 10);
}

#[test]
fn achieved_rate_in_hundredths() {
    assert_eq!(actual_qps_centi(0, 0), 0);
    assert_eq!(actual_qps_centi(10, 0), 0);
    assert_eq!(actual_qps_centi(3, 2_000_000_000), 150);
    assert_eq!(actual_qps_centi(1, 3_000_000_000), 33);
    assert_eq!(actual_qps_centi(u64::MAX, 1), u64::MAX as u128 * 100_000_000_000);
}
