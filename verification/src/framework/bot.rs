//! Counters of the bot: requests, successes, failures and response times.

use vstd::prelude::*;
use crate::framework::pipeline::{average_of, total_time, MAX_REMEMBERED_TIMES};

verus! {

/// Metrics for monitoring bot performance
#[derive(Debug)]
pub struct BotMetrics {
    requests_total: u64,
    success_total: u64,
    errors_total: u64,
    response_times: Vec<u64>,
}

impl BotMetrics {
    #[verifier::type_invariant]
    spec fn inv(self) -> bool {
        self.response_times@.len() <= MAX_REMEMBERED_TIMES
    }

    /// The requests counted.
    pub closed spec fn spec_requests_total(&self) -> u64 {
        self.requests_total
    }

    /// The successes counted.
    pub closed spec fn spec_success_total(&self) -> u64 {
        self.success_total
    }

    /// The failures counted.
    pub closed spec fn spec_errors_total(&self) -> u64 {
        self.errors_total
    }

    /// The response times remembered, in milliseconds, oldest first.
    pub closed spec fn spec_response_times(&self) -> Seq<u64> {
        self.response_times@
    }

    /// The success rate in thousandths of a percent: a hundred percent where
    /// nothing was asked yet.
    pub open spec fn spec_success_rate(&self) -> nat {
        if self.spec_requests_total() == 0 {
            100_000
        } else if 100_000 * self.spec_success_total() / (self.spec_requests_total() as int)
            > u64::MAX {
            u64::MAX as nat
        } else {
            (100_000 * self.spec_success_total() / (self.spec_requests_total() as int)) as nat
        }
    }

    /// Metrics on which nothing has been recorded
    pub fn new() -> (m: Self)
        ensures
            m.spec_requests_total() == 0,
            m.spec_success_total() == 0,
            m.spec_errors_total() == 0,
            m.spec_response_times() == Seq::<u64>::empty(),
    {
        BotMetrics { requests_total: 0, success_total: 0, errors_total: 0, response_times: Vec::new() }
    }

    /// Count one more request
    pub fn increment_requests(&mut self)
        requires
            old(self).spec_requests_total() < u64::MAX,
        ensures
            final(self).spec_requests_total() == old(self).spec_requests_total() + 1,
            final(self).spec_success_total() == old(self).spec_success_total(),
            final(self).spec_errors_total() == old(self).spec_errors_total(),
            final(self).spec_response_times() == old(self).spec_response_times(),
    {
        proof {
            use_type_invariant(&*self);
        }
        self.requests_total = self.requests_total + 1;
    }

    /// Count one more success
    pub fn increment_success(&mut self)
        requires
            old(self).spec_success_total() < u64::MAX,
        ensures
            final(self).spec_success_total() == old(self).spec_success_total() + 1,
            final(self).spec_requests_total() == old(self).spec_requests_total(),
            final(self).spec_errors_total() == old(self).spec_errors_total(),
            final(self).spec_response_times() == old(self).spec_response_times(),
    {
        proof {
            use_type_invariant(&*self);
        }
        self.success_total = self.success_total + 1;
    }

    /// Count one more failure
    pub fn increment_errors(&mut self)
        requires
            old(self).spec_errors_total() < u64::MAX,
        ensures
            final(self).spec_errors_total() == old(self).spec_errors_total() + 1,
            final(self).spec_requests_total() == old(self).spec_requests_total(),
            final(self).spec_success_total() == old(self).spec_success_total(),
            final(self).spec_response_times() == old(self).spec_response_times(),
    {
        proof {
            use_type_invariant(&*self);
        }
        self.errors_total = self.errors_total + 1;
    }

    /// Remember one more response time, in milliseconds. Only the last
    /// thousand stay.
    pub fn record_response_time(&mut self, ms: u64)
        ensures
            final(self).spec_response_times() == (if old(self).spec_response_times().len()
                >= MAX_REMEMBERED_TIMES {
                old(self).spec_response_times().push(ms).skip(1)
            } else {
                old(self).spec_response_times().push(ms)
            }),
            final(self).spec_requests_total() == old(self).spec_requests_total(),
            final(self).spec_success_total() == old(self).spec_success_total(),
            final(self).spec_errors_total() == old(self).spec_errors_total(),
    {
        proof {
            use_type_invariant(&*self);
        }
        let requests_total = self.requests_total;
        let success_total = self.success_total;
        let errors_total = self.errors_total;
        let mut taken = BotMetrics::new();
        std::mem::swap(self, &mut taken);
        let BotMetrics { requests_total: _, success_total: _, errors_total: _, response_times } =
            taken;
        let mut times = response_times;
        times.push(ms);
        // Keep only last 1000 response times
        if times.len() > MAX_REMEMBERED_TIMES {
            let _ = times.remove(0);
            assert(times@ =~= old(self).spec_response_times().push(ms).skip(1));
        }
        *self = BotMetrics { requests_total, success_total, errors_total, response_times: times };
    }

    /// Get the total number of requests
    pub fn requests_total(&self) -> (n: u64)
        ensures
            n == self.spec_requests_total(),
    {
        self.requests_total
    }

    /// Get the total number of successful responses
    pub fn success_total(&self) -> (n: u64)
        ensures
            n == self.spec_success_total(),
    {
        self.success_total
    }

    /// Get the total number of errors
    pub fn errors_total(&self) -> (n: u64)
        ensures
            n == self.spec_errors_total(),
    {
        self.errors_total
    }

    /// Get the average response time in milliseconds, where any was recorded
    pub fn average_response_time(&self) -> (r: Option<u64>)
        ensures
            r is None <==> self.spec_response_times().len() == 0,
            r matches Some(avg) ==> avg == total_time(self.spec_response_times())
                / self.spec_response_times().len(),
    {
        proof {
            use_type_invariant(self);
        }
        average_of(&self.response_times)
    }

    /// Get the success rate in thousandths of a percent
    pub fn success_rate(&self) -> (r: u64)
        ensures
            r == self.spec_success_rate(),
    {
        if self.requests_total == 0 {
            return 100_000;
        }
        let q: u128 = 100_000 * (self.success_total as u128) / (self.requests_total as u128);
        if q > u64::MAX as u128 {
            u64::MAX
        } else {
            q as u64
        }
    }
}

} // verus!
