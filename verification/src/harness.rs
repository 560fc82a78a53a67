//! The load-harness core: the workload plan, the deadline-bounded result
//! collection, and latency aggregation.
//!
//! The harness proper spawns one worker per concurrency unit, staggers the
//! spawns across the ramp-up window, then drains a shared result channel
//! until it has received everything still owed or a receive times out.
//! Everything the harness decides — how many probes each worker issues, how
//! long to sleep between spawns, when to stop listening, and what the final
//! report says — lives here as verified functions over plain values; the
//! threads, the channel and the clock stay outside the library.

use vstd::prelude::*;
use vstd::string::StringExecFns;

verus! {

/// The immutable description of one load-test run. Durations are in
/// milliseconds.
#[derive(Debug)]
pub struct WorkLoadPlan {
    pub total_requests: u64,
    pub worker_count: u64,
    pub ramp_up_ms: u64,
    pub per_connection_timeout_ms: u64,
}

/// A plan is well formed when it asks for at least one request from at
/// least one worker.
pub open spec fn plan_wf(p: WorkLoadPlan) -> bool {
    &&& p.worker_count > 0
    &&& p.total_requests > 0
}

impl WorkLoadPlan {
    /// Validates and freezes the configuration of a run.
    pub fn new(
        total_requests: u64,
        worker_count: u64,
        ramp_up_ms: u64,
        per_connection_timeout_ms: u64,
    ) -> (r: Result<WorkLoadPlan, String>)
        ensures
            r is Ok <==> total_requests > 0 && worker_count > 0,
            match r {
                Ok(p) => {
                    &&& p.total_requests == total_requests
                    &&& p.worker_count == worker_count
                    &&& p.ramp_up_ms == ramp_up_ms
                    &&& p.per_connection_timeout_ms == per_connection_timeout_ms
                    &&& plan_wf(p)
                },
                Err(m) => (worker_count == 0 && m@ == "The worker count must be positive"@) || (
                worker_count > 0 && total_requests == 0 && m@
                    == "The request count must be positive"@),
            },
    {
        if worker_count == 0 {
            return Err(String::from_str("The worker count must be positive"));
        }
        if total_requests == 0 {
            return Err(String::from_str("The request count must be positive"));
        }
        Ok(
            WorkLoadPlan {
                total_requests,
                worker_count,
                ramp_up_ms,
                per_connection_timeout_ms,
            },
        )
    }

    /// How many probes each worker issues: the total divided evenly, the
    /// remainder deliberately dropped — a run under-delivers by up to
    /// `worker_count - 1` requests rather than spreading them unevenly.
    pub fn requests_per_worker(&self) -> (r: u64)
        requires
            plan_wf(*self),
        ensures
            r == self.total_requests / self.worker_count,
    {
        self.total_requests / self.worker_count
    }

    /// The pause before each successive worker spawn: the ramp-up window
    /// divided by the total request count, so the whole fleet ramps up
    /// across the configured window.
    pub fn inter_spawn_delay_ms(&self) -> (r: u64)
        requires
            plan_wf(*self),
        ensures
            r == self.ramp_up_ms / self.total_requests,
    {
        self.ramp_up_ms / self.total_requests
    }

    /// Whether spawns are staggered at all: a ramp-up of at most one
    /// second counts as disabled and the fleet starts immediately.
    pub fn should_stagger(&self) -> (r: bool)
        ensures
            r == (self.ramp_up_ms > 1000),
    {
        self.ramp_up_ms > 1000
    }
}

/// How many samples the drain still owes: the expected count less one per
/// failed spawn, never below zero.
pub open spec fn spec_limit(expected: u64, spawn_errors: u64) -> u64 {
    if spawn_errors <= expected {
        (expected - spawn_errors) as u64
    } else {
        0
    }
}

/// The receive side of the result channel: decides, sample by sample, when
/// the harness may stop listening.
pub struct Collector {
    pub limit: u64,
    pub samples: Vec<u64>,
}

impl Collector {
    pub fn new(expected: u64, spawn_errors: u64) -> (r: Collector)
        ensures
            r.limit == spec_limit(expected, spawn_errors),
            r.samples@ == Seq::<u64>::empty(),
    {
        let limit: u64 = if spawn_errors <= expected {
            expected - spawn_errors
        } else {
            0
        };
        Collector { limit, samples: Vec::new() }
    }

    /// The harness keeps receiving exactly while fewer samples have
    /// arrived than are owed.
    pub fn wants_more(&self) -> (r: bool)
        ensures
            r == (self.samples@.len() < self.limit),
    {
        (self.samples.len() as u64) < self.limit
    }

    /// Records one received sample.
    pub fn on_received(&mut self, elapsed_ms: u64)
        ensures
            final(self).limit == old(self).limit,
            final(self).samples@ == old(self).samples@.push(elapsed_ms),
    {
        self.samples.push(elapsed_ms);
    }

    /// Hands the collected samples to the aggregator.
    pub fn into_samples(self) -> (r: Vec<u64>)
        ensures
            r@ == self.samples@,
    {
        self.samples
    }
}

/// What the drain collects from a sequence of channel events — `Some(ms)`
/// for an arrived sample, `None` for a receive that timed out: samples in
/// arrival order, cut off at the first timeout or once `limit` samples
/// have arrived, whichever comes first.
pub open spec fn spec_drain(events: Seq<Option<u64>>, limit: nat) -> Seq<u64>
    decreases events.len(),
{
    if limit == 0 || events.len() == 0 {
        Seq::empty()
    } else {
        match events[0] {
            Some(v) => seq![v] + spec_drain(events.drop_first(), (limit - 1) as nat),
            None => Seq::empty(),
        }
    }
}

/// How many receives the drain performs on those events before it stops.
pub open spec fn spec_drain_attempts(events: Seq<Option<u64>>, limit: nat) -> nat
    decreases events.len(),
{
    if limit == 0 || events.len() == 0 {
        0
    } else {
        match events[0] {
            Some(v) => 1 + spec_drain_attempts(events.drop_first(), (limit - 1) as nat),
            None => 1,
        }
    }
}

/// The harness receive loop, replayed over a recorded sequence of channel
/// events. Returns the collected samples and how many receives were
/// performed.
pub fn drain_events(events: &Vec<Option<u64>>, expected: u64, spawn_errors: u64) -> (r: (
    Vec<u64>,
    usize,
))
    ensures
        r.0@ == spec_drain(events@, spec_limit(expected, spawn_errors) as nat),
        r.1 == spec_drain_attempts(events@, spec_limit(expected, spawn_errors) as nat),
{
    let ghost limit = spec_limit(expected, spawn_errors);
    let mut c = Collector::new(expected, spawn_errors);
    let mut i: usize = 0;
    proof {
        assert(events@.skip(0) =~= events@);
        assert(c.samples@ + spec_drain(events@, limit as nat) =~= spec_drain(
            events@,
            limit as nat,
        ));
    }
    loop
        invariant_except_break
            spec_drain(events@, limit as nat) == c.samples@ + spec_drain(
                events@.skip(i as int),
                (limit - c.samples@.len()) as nat,
            ),
            spec_drain_attempts(events@, limit as nat) == i + spec_drain_attempts(
                events@.skip(i as int),
                (limit - c.samples@.len()) as nat,
            ),
        invariant
            i <= events@.len(),
            c.limit == limit,
            c.samples@.len() <= c.limit,
        ensures
            c.samples@ == spec_drain(events@, limit as nat),
            i == spec_drain_attempts(events@, limit as nat),
        decreases events@.len() - i,
    {
        if !c.wants_more() {
            proof {
                assert(c.samples@ + spec_drain(events@.skip(i as int), 0) =~= c.samples@);
            }
            break ;
        }
        if i >= events.len() {
            proof {
                assert(events@.skip(i as int) =~= Seq::<Option<u64>>::empty());
                assert(c.samples@ + spec_drain(
                    events@.skip(i as int),
                    (limit - c.samples@.len()) as nat,
                ) =~= c.samples@);
            }
            break ;
        }
        proof {
            assert(events@.skip(i as int)[0] == events@[i as int]);
            assert(events@.skip(i as int).drop_first() =~= events@.skip(i + 1));
        }
        match events[i] {
            Some(v) => {
                let ghost prev = c.samples@;
                c.on_received(v);
                i = i + 1;
                proof {
                    assert(prev + (seq![v] + spec_drain(
                        events@.skip(i as int),
                        (limit - c.samples@.len()) as nat,
                    )) =~= c.samples@ + spec_drain(
                        events@.skip(i as int),
                        (limit - c.samples@.len()) as nat,
                    ));
                }
            },
            None => {
                proof {
                    assert(c.samples@ + spec_drain(
                        events@.skip(i as int),
                        (limit - c.samples@.len()) as nat,
                    ) =~= c.samples@);
                }
                i = i + 1;
                break ;
            },
        }
    }
    let samples = c.into_samples();
    (samples, i)
}

/// Bounded waiting: the drain never performs more receives than samples
/// owed, and never more than there are events. Each receive blocks for at
/// most the per-connection timeout, so the whole drain blocks for at most
/// `limit` timeouts regardless of worker behaviour.
pub proof fn lemma_drain_attempts_bounded(events: Seq<Option<u64>>, limit: nat)
    ensures
        spec_drain_attempts(events, limit) <= limit,
        spec_drain_attempts(events, limit) <= events.len(),
    decreases events.len(),
{
    if limit > 0 && events.len() > 0 {
        match events[0] {
            Some(v) => {
                lemma_drain_attempts_bounded(events.drop_first(), (limit - 1) as nat);
            },
            None => {},
        }
    }
}

/// The drain never collects more samples than are owed, nor more than
/// there were events.
pub proof fn lemma_drain_len_bounded(events: Seq<Option<u64>>, limit: nat)
    ensures
        spec_drain(events, limit).len() <= limit,
        spec_drain(events, limit).len() <= events.len(),
    decreases events.len(),
{
    if limit > 0 && events.len() > 0 {
        match events[0] {
            Some(v) => {
                lemma_drain_len_bounded(events.drop_first(), (limit - 1) as nat);
            },
            None => {},
        }
    }
}

/// Total failure: when no worker ever delivers — every receive times out —
/// the drain stops after at most one receive and collects nothing, so the
/// run still terminates and reports an actual count of zero.
pub proof fn lemma_drain_all_timeouts(events: Seq<Option<u64>>, limit: nat)
    requires
        forall|i: int| 0 <= i < events.len() ==> events[i] is None,
    ensures
        spec_drain(events, limit) == Seq::<u64>::empty(),
        spec_drain_attempts(events, limit) <= 1,
{
}

/// The final run report. `average`, `min` and `max` are `None` exactly
/// when no sample arrived: an explicit no-data outcome, never a division
/// by zero.
pub struct Report {
    pub expected_count: u64,
    pub actual_count: u64,
    pub spawn_error_count: u64,
    pub average: Option<u128>,
    pub min: Option<u64>,
    pub max: Option<u64>,
}

/// The sum of a run's samples.
pub open spec fn spec_sum(s: Seq<u64>) -> nat
    decreases s.len(),
{
    if s.len() == 0 {
        0
    } else {
        spec_sum(s.drop_last()) + s.last() as nat
    }
}

/// The least sample of a non-empty run.
pub open spec fn spec_min(s: Seq<u64>) -> u64
    recommends
        s.len() > 0,
    decreases s.len(),
{
    if s.len() <= 1 {
        s[0]
    } else {
        let m = spec_min(s.drop_last());
        if s.last() < m {
            s.last()
        } else {
            m
        }
    }
}

/// The greatest sample of a non-empty run.
pub open spec fn spec_max(s: Seq<u64>) -> u64
    recommends
        s.len() > 0,
    decreases s.len(),
{
    if s.len() <= 1 {
        s[0]
    } else {
        let m = spec_max(s.drop_last());
        if s.last() > m {
            s.last()
        } else {
            m
        }
    }
}

proof fn lemma_sum_bound(s: Seq<u64>)
    ensures
        spec_sum(s) <= s.len() * (u64::MAX as nat),
    decreases s.len(),
{
    if s.len() > 0 {
        lemma_sum_bound(s.drop_last());
        assert((s.len() - 1) * (u64::MAX as nat) + (u64::MAX as nat) == s.len() * (
        u64::MAX as nat)) by (nonlinear_arith);
    }
}

/// Reduces the collected samples into the final report: count, integer
/// average, minimum and maximum, with explicit no-data sentinels for an
/// empty run.
pub fn aggregate(samples: &Vec<u64>, expected_count: u64, spawn_error_count: u64) -> (r: Report)
    ensures
        r.expected_count == expected_count,
        r.spawn_error_count == spawn_error_count,
        r.actual_count as nat == samples@.len(),
        samples@.len() == 0 ==> r.average is None && r.min is None && r.max is None,
        samples@.len() > 0 ==> {
            &&& r.average == Some((spec_sum(samples@) / samples@.len()) as u128)
            &&& r.min == Some(spec_min(samples@))
            &&& r.max == Some(spec_max(samples@))
        },
{
    if samples.len() == 0 {
        return Report {
            expected_count,
            actual_count: 0,
            spawn_error_count,
            average: None,
            min: None,
            max: None,
        };
    }
    let first = samples[0];
    let mut sum: u128 = first as u128;
    let mut min: u64 = first;
    let mut max: u64 = first;
    let mut i: usize = 1;
    proof {
        assert(samples@.take(1).drop_last() =~= Seq::<u64>::empty());
        assert(samples@.take(1).last() == samples@[0]);
        assert(spec_sum(Seq::<u64>::empty()) == 0);
    }
    while i < samples.len()
        invariant
            1 <= i <= samples@.len(),
            sum as nat == spec_sum(samples@.take(i as int)),
            min == spec_min(samples@.take(i as int)),
            max == spec_max(samples@.take(i as int)),
        decreases samples@.len() - i,
    {
        let x = samples[i];
        proof {
            lemma_sum_bound(samples@.take(i as int));
            assert((i as nat) * (u64::MAX as nat) <= (usize::MAX as nat) * (u64::MAX as nat))
                by (nonlinear_arith)
                requires
                    i as nat <= usize::MAX as nat,
            ;
        }
        sum = sum + (x as u128);
        if x < min {
            min = x;
        }
        if x > max {
            max = x;
        }
        i = i + 1;
        proof {
            assert(samples@.take(i as int).drop_last() =~= samples@.take(i - 1));
            assert(samples@.take(i as int).last() == samples@[i - 1]);
        }
    }
    proof {
        assert(samples@.take(samples@.len() as int) =~= samples@);
    }
    let average = sum / (samples.len() as u128);
    Report {
        expected_count,
        actual_count: samples.len() as u64,
        spawn_error_count,
        average: Some(average),
        min: Some(min),
        max: Some(max),
    }
}

} // verus!
