//! Worker-loop bookkeeping for connection probes.
//!
//! A probe is one complete connect → write → read-until-close cycle, timed
//! as a single latency sample in milliseconds. The TCP work itself happens
//! outside the library; this module holds the verified bookkeeping: which
//! probe outcomes become samples, and in what order.

use vstd::prelude::*;

verus! {

/// The outcome of one successful probe: its round-trip time in
/// milliseconds.
pub struct ConnectionResult {
    pub rtt: u64,
}

impl ConnectionResult {
    pub fn new(end: u64) -> (r: Self)
        ensures
            r.rtt == end,
    {
        Self { rtt: end }
    }
}

/// The samples a worker gathered over its fixed run of probes, in probe
/// order.
pub struct RepeatedResult {
    pub times: Vec<u64>,
}

impl RepeatedResult {
    pub fn add_time(&mut self, rtt: u64)
        ensures
            final(self).times@ == old(self).times@.push(rtt),
    {
        self.times.push(rtt);
    }
}

/// The round-trip times of the successful probes, in probe order; failed
/// probes contribute nothing.
pub open spec fn spec_successes(s: Seq<Option<u64>>) -> Seq<u64>
    decreases s.len(),
{
    if s.len() == 0 {
        Seq::empty()
    } else {
        let rest = spec_successes(s.drop_last());
        match s.last() {
            Some(v) => rest.push(v),
            None => rest,
        }
    }
}

/// Collects a worker's probe outcomes, one entry per probe attempted in
/// order: `Some(ms)` for a success, `None` for a failed or timed-out
/// probe. Every success is kept, every failure silently skipped — no
/// retry, no error propagation past the worker.
pub fn repeat_connection(outcomes: &Vec<Option<u64>>) -> (r: RepeatedResult)
    ensures
        r.times@ == spec_successes(outcomes@),
{
    let mut output = RepeatedResult { times: Vec::new() };
    let mut i: usize = 0;
    while i < outcomes.len()
        invariant
            i <= outcomes@.len(),
            output.times@ == spec_successes(outcomes@.take(i as int)),
        decreases outcomes@.len() - i,
    {
        match outcomes[i] {
            Some(time) => {
                output.add_time(time);
            },
            None => {},
        }
        i = i + 1;
        proof {
            assert(outcomes@.take(i as int).drop_last() =~= outcomes@.take(i - 1));
            assert(outcomes@.take(i as int).last() == outcomes@[i - 1]);
        }
    }
    proof {
        assert(outcomes@.take(outcomes@.len() as int) =~= outcomes@);
    }
    output
}

} // verus!
