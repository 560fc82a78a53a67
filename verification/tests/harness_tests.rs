use loadgen::connection::{repeat_connection, ConnectionResult, RepeatedResult};
use loadgen::harness::{aggregate, drain_events, Collector, WorkLoadPlan};

#[test]
fn aggregating_empty_samples_reports_no_data() {
    let report = aggregate(&vec![], 100, 3);
    assert_eq!(report.expected_count, 100);
    assert_eq!(report.actual_count, 0);
    assert_eq!(report.spawn_error_count, 3);
    assert!(report.average.is_none());
    assert!(report.min.is_none());
    assert!(report.max.is_none());
}

#[test]
fn aggregating_three_samples() {
    let report = aggregate(&vec![10, 20, 30], 3, 0);
    assert_eq!(report.actual_count, 3);
    assert_eq!(report.average, Some(20));
    assert_eq!(report.min, Some(10));
    assert_eq!(report.max, Some(30));
}

#[test]
fn aggregate_average_truncates() {
    let report = aggregate(&vec![3, 4], 2, 0);
    assert_eq!(report.average, Some(3));
    assert_eq!(report.min, Some(3));
    assert_eq!(report.max, Some(4));
}

#[test]
fn even_split_gives_exact_probes_per_worker() {
    let plan = WorkLoadPlan::new(100, 25, 15_000, 1_000).unwrap();
    assert_eq!(plan.requests_per_worker(), 4);
}

#[test]
fn remainder_requests_are_dropped() {
    // 101 requests over 25 workers: each worker still issues 4 probes; the
    // one remainder request is never issued.
    let plan = WorkLoadPlan::new(101, 25, 15_000, 1_000).unwrap();
    assert_eq!(plan.requests_per_worker(), 4);
    assert_eq!(plan.requests_per_worker() * plan.worker_count, 100);
}

#[test]
fn inter_spawn_delay_spreads_ramp_up_over_all_requests() {
    let plan = WorkLoadPlan::new(100, 25, 15_000, 1_000).unwrap();
    assert_eq!(plan.inter_spawn_delay_ms(), 150);
}

#[test]
fn short_ramp_up_disables_staggering() {
    let plan = WorkLoadPlan::new(100, 25, 1_000, 1_000).unwrap();
    assert!(!plan.should_stagger());
    let plan = WorkLoadPlan::new(100, 25, 1_500, 1_000).unwrap();
    assert!(plan.should_stagger());
}

#[test]
fn plan_rejects_zero_workers() {
    let err = WorkLoadPlan::new(100, 0, 15_000, 1_000).unwrap_err();
    assert_eq!(err, "The worker count must be positive");
}

#[test]
fn plan_rejects_zero_requests() {
    let err = WorkLoadPlan::new(0, 25, 15_000, 1_000).unwrap_err();
    assert_eq!(err, "The request count must be positive");
}

#[test]
fn drain_with_all_timeouts_stops_at_first_receive() {
    // Every probe failed: nothing ever arrives, every receive times out.
    let events: Vec<Option<u64>> = vec![None, None, None];
    let (samples, attempts) = drain_events(&events, 100, 0);
    assert!(samples.is_empty());
    assert_eq!(attempts, 1);
}

#[test]
fn drain_stops_once_owed_samples_arrived() {
    let events = vec![Some(5), Some(7), Some(9)];
    let (samples, attempts) = drain_events(&events, 2, 0);
    assert_eq!(samples, vec![5, 7]);
    assert_eq!(attempts, 2);
}

#[test]
fn drain_stops_at_first_timeout() {
    let events = vec![Some(5), None, Some(9)];
    let (samples, attempts) = drain_events(&events, 10, 0);
    assert_eq!(samples, vec![5]);
    assert_eq!(attempts, 2);
}

#[test]
fn spawn_errors_shrink_what_the_drain_owes() {
    let events = vec![Some(5), Some(7), Some(9)];
    let (samples, attempts) = drain_events(&events, 3, 1);
    assert_eq!(samples, vec![5, 7]);
    assert_eq!(attempts, 2);
}

#[test]
fn collector_stops_asking_at_its_limit() {
    let mut collector = Collector::new(3, 1);
    assert!(collector.wants_more());
    collector.on_received(10);
    assert!(collector.wants_more());
    collector.on_received(20);
    assert!(!collector.wants_more());
    assert_eq!(collector.into_samples(), vec![10, 20]);
}

#[test]
fn collector_with_more_errors_than_expected_wants_nothing() {
    let collector = Collector::new(2, 5);
    assert!(!collector.wants_more());
}

#[test]
fn worker_keeps_successes_and_skips_failures() {
    let outcomes = vec![Some(10), None, Some(30), None, None];
    let result = repeat_connection(&outcomes);
    assert_eq!(result.times, vec![10, 30]);
}

#[test]
fn worker_with_no_successes_reports_nothing() {
    let outcomes: Vec<Option<u64>> = vec![None, None];
    assert!(repeat_connection(&outcomes).times.is_empty());
}

#[test]
fn connection_result_keeps_its_round_trip_time() {
    let result = ConnectionResult::new(42);
    assert_eq!(result.rtt, 42);
}

#[test]
fn repeated_result_appends_in_order() {
    let mut repeated = RepeatedResult { times: vec![] };
    repeated.add_time(7);
    repeated.add_time(3);
    assert_eq!(repeated.times, vec![7, 3]);
}
