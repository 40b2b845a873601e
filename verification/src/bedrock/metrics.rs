//! Counters, latencies and costs across all requests, with rates that are
//! computed on read. Rates and averages are in thousandths, rounded down;
//! money is in billionths of a dollar.

use vstd::prelude::*;
use vstd::string::*;
use crate::string_map::StringMap;
use crate::system::wall_clock_millis;

verus! {

/// Rates and averages are fixed-point numbers with this many units to one, so
/// one success in three reads 33333 thousandths of a percent.
pub const RATE_UNIT: u64 = 1000;

/// `scale * part / whole`, rounded down, held at `u64::MAX`; zero where the
/// whole is zero.
pub open spec fn scaled_ratio(scale: nat, part: nat, whole: nat) -> nat {
    if whole == 0 {
        0
    } else if scale * part / whole > u64::MAX {
        u64::MAX as nat
    } else {
        scale * part / whole
    }
}

/// The count under a key, zero where the key is absent.
pub open spec fn count_of(counts: Map<Seq<char>, u64>, key: Seq<char>) -> u64 {
    if counts.contains_key(key) {
        counts[key]
    } else {
        0
    }
}

/// Whole seconds from `start_ms` to `now_ms`, zero where the clock went back.
pub open spec fn seconds_between(start_ms: i64, now_ms: i64) -> nat {
    if now_ms <= start_ms {
        0
    } else {
        ((now_ms - start_ms) / 1000) as nat
    }
}

/// Compute `scale * part / whole` without overflow.
pub fn ratio(scale: u64, part: u64, whole: u64) -> (r: u64)
    ensures
        r == scaled_ratio(scale as nat, part as nat, whole as nat),
{
    if whole == 0 {
        return 0;
    }
    assert((scale as u128) * (part as u128) <= 0xFFFF_FFFF_FFFF_FFFF * 0xFFFF_FFFF_FFFF_FFFF)
        by (nonlinear_arith)
        requires
            scale <= 0xFFFF_FFFF_FFFF_FFFF,
            part <= 0xFFFF_FFFF_FFFF_FFFF,
    ;
    let q: u128 = (scale as u128) * (part as u128) / (whole as u128);
    if q > u64::MAX as u128 {
        u64::MAX
    } else {
        q as u64
    }
}

/// Whole seconds from `start_ms` to `now_ms`.
pub fn elapsed_seconds(start_ms: i64, now_ms: i64) -> (s: u64)
    ensures
        s == seconds_between(start_ms, now_ms),
{
    if now_ms <= start_ms {
        0
    } else {
        let diff: i128 = now_ms as i128 - start_ms as i128;
        (diff / 1000) as u64
    }
}

/// Add one to the count under a key, starting from zero where it is absent.
fn bump(counts: &mut StringMap<u64>, key: &str)
    requires
        count_of(old(counts)@, key@) < u64::MAX,
    ensures
        final(counts)@ == old(counts)@.insert(key@, (count_of(old(counts)@, key@) + 1) as u64),
{
    let current: u64 = match counts.get(key) {
        Some(c) => *c,
        None => 0,
    };
    counts.insert(String::from_str(key), current + 1);
}

/// The entry with the largest count, if there is any entry.
fn largest<'a>(counts: &'a StringMap<u64>) -> (r: Option<(&'a String, u64)>)
    ensures
        r is None <==> counts@ == Map::<Seq<char>, u64>::empty(),
        r matches Some((k, c)) ==> counts@.contains_key(k@) && counts@[k@] == c && forall|
            other: Seq<char>,
        | counts@.contains_key(other) ==> counts@[other] <= c,
{
    let n = counts.len();
    if counts.is_empty() {
        return None;
    }
    let mut best: usize = 0;
    let mut best_count: u64 = *counts.value_at_index(0);
    let mut i: usize = 1;
    while i < n
        invariant
            1 <= i <= n,
            n == counts.spec_keys().len(),
            counts.listed(),
            best < i,
            best_count == counts.spec_values()[best as int],
            forall|j: int| 0 <= j < i ==> counts.spec_values()[j] <= best_count,
        decreases n - i,
    {
        let c = *counts.value_at_index(i);
        if c > best_count {
            best = i;
            best_count = c;
        }
        i = i + 1;
    }
    let key = counts.key_at_index(best);
    proof {
        assert(counts@.contains_key(counts.spec_keys()[best as int]));
        assert forall|other: Seq<char>| counts@.contains_key(other) implies counts@[other]
            <= best_count by {
            let j = choose|j: int|
                0 <= j < counts.spec_keys().len() && #[trigger] counts.spec_keys()[j] == other;
            assert(counts@[counts.spec_keys()[j]] == counts.spec_values()[j]);
        }
    }
    Some((key, best_count))
}

/// Summary of key metrics for monitoring
#[derive(Debug, Clone, Copy, PartialEq, Eq, Structural)]
pub struct MetricsSummary {
    /// Total requests processed
    pub total_requests: u64,
    /// Success rate in thousandths of a percent
    pub success_rate: u64,
    /// Average latency in thousandths of a millisecond
    pub average_latency_ms: u64,
    /// Requests per second, in thousandths
    pub requests_per_second: u64,
    /// Total tokens processed
    pub total_tokens: u64,
    /// Total cost in billionths of a dollar
    pub total_cost_nanos: u64,
    /// Currently active requests
    pub active_requests: u64,
    /// Uptime in seconds
    pub uptime_seconds: u64,
}

/// Health status for the client
#[derive(Debug, Clone)]
pub struct HealthStatus {
    /// Whether the client is healthy
    pub healthy: bool,
    /// Last health check latency
    pub latency_ms: u64,
    /// Error message if unhealthy
    pub error: Option<String>,
    /// Health check timestamp, in milliseconds since the Unix epoch
    pub timestamp_ms: i64,
}

impl HealthStatus {
    /// The status that a probe yields: healthy where it succeeded, else
    /// unhealthy with the failure's message.
    pub fn from_probe(failure: Option<String>, latency_ms: u64, timestamp_ms: i64) -> (h: Self)
        ensures
            h.healthy == (failure is None),
            h.latency_ms == latency_ms,
            h.error == failure,
            h.timestamp_ms == timestamp_ms,
    {
        HealthStatus { healthy: failure.is_none(), latency_ms, error: failure, timestamp_ms }
    }
}

/// Comprehensive metrics for the Bedrock client
#[derive(Debug)]
pub struct BedrockMetrics {
    /// Total number of requests made
    pub total_requests: u64,
    /// Number of successful requests
    pub successful_requests: u64,
    /// Number of failed requests
    pub failed_requests: u64,
    /// Number of currently active requests
    pub active_requests: u64,
    /// Total latency in milliseconds
    pub total_latency_ms: u64,
    /// Total input tokens processed
    pub total_input_tokens: u64,
    /// Total output tokens generated
    pub total_output_tokens: u64,
    /// Total estimated cost in billionths of a dollar
    pub total_cost_nanos: u64,
    /// Request counts by model
    pub requests_by_model: StringMap<u64>,
    /// Error counts by type
    pub errors_by_type: StringMap<u64>,
    /// Metrics collection start time, in milliseconds since the Unix epoch
    pub start_time_ms: i64,
    /// Last updated time, in milliseconds since the Unix epoch
    pub last_updated_ms: i64,
}

impl BedrockMetrics {
    /// Nothing has been recorded.
    pub open spec fn is_zero(&self) -> bool {
        &&& self.total_requests == 0
        &&& self.successful_requests == 0
        &&& self.failed_requests == 0
        &&& self.active_requests == 0
        &&& self.total_latency_ms == 0
        &&& self.total_input_tokens == 0
        &&& self.total_output_tokens == 0
        &&& self.total_cost_nanos == 0
        &&& self.requests_by_model@ == Map::<Seq<char>, u64>::empty()
        &&& self.errors_by_type@ == Map::<Seq<char>, u64>::empty()
        &&& self.start_time_ms == self.last_updated_ms
    }

    /// The tokens processed in both directions.
    pub open spec fn spec_total_tokens(&self) -> nat {
        (self.total_input_tokens + self.total_output_tokens) as nat
    }

    /// The summary of these metrics as read at `now_ms`.
    pub open spec fn summary_of(&self, now_ms: i64) -> MetricsSummary {
        MetricsSummary {
            total_requests: self.total_requests,
            success_rate: scaled_ratio(
                100 * RATE_UNIT as nat,
                self.successful_requests as nat,
                self.total_requests as nat,
            ) as u64,
            average_latency_ms: scaled_ratio(
                RATE_UNIT as nat,
                self.total_latency_ms as nat,
                self.total_requests as nat,
            ) as u64,
            requests_per_second: scaled_ratio(
                RATE_UNIT as nat,
                self.total_requests as nat,
                seconds_between(self.start_time_ms, now_ms),
            ) as u64,
            total_tokens: self.spec_total_tokens() as u64,
            total_cost_nanos: self.total_cost_nanos,
            active_requests: self.active_requests,
            uptime_seconds: seconds_between(self.start_time_ms, now_ms) as u64,
        }
    }

    /// Create new metrics instance
    pub fn new() -> (m: Self)
        ensures
            m.is_zero(),
    {
        let now = wall_clock_millis();
        BedrockMetrics {
            total_requests: 0,
            successful_requests: 0,
            failed_requests: 0,
            active_requests: 0,
            total_latency_ms: 0,
            total_input_tokens: 0,
            total_output_tokens: 0,
            total_cost_nanos: 0,
            requests_by_model: StringMap::new(),
            errors_by_type: StringMap::new(),
            start_time_ms: now,
            last_updated_ms: now,
        }
    }

    /// Calculate average latency in thousandths of a millisecond, zero where
    /// nothing was recorded
    pub fn average_latency_ms(&self) -> (r: u64)
        ensures
            r == scaled_ratio(
                RATE_UNIT as nat,
                self.total_latency_ms as nat,
                self.total_requests as nat,
            ),
    {
        ratio(RATE_UNIT, self.total_latency_ms, self.total_requests)
    }

    /// Calculate success rate in thousandths of a percent, zero where nothing
    /// was recorded
    pub fn success_rate(&self) -> (r: u64)
        ensures
            r == scaled_ratio(
                100 * RATE_UNIT as nat,
                self.successful_requests as nat,
                self.total_requests as nat,
            ),
    {
        ratio(100 * RATE_UNIT, self.successful_requests, self.total_requests)
    }

    /// Calculate requests per second, in thousandths, over the whole seconds
    /// between the start and `now_ms`; zero where less than a second has passed
    pub fn requests_per_second_at(&self, now_ms: i64) -> (r: u64)
        ensures
            r == scaled_ratio(
                RATE_UNIT as nat,
                self.total_requests as nat,
                seconds_between(self.start_time_ms, now_ms),
            ),
    {
        ratio(RATE_UNIT, self.total_requests, elapsed_seconds(self.start_time_ms, now_ms))
    }

    /// Calculate requests per second since start, in thousandths
    pub fn requests_per_second(&self) -> (r: u64)
        ensures
            exists|now_ms: i64|
                r == scaled_ratio(
                    RATE_UNIT as nat,
                    self.total_requests as nat,
                    #[trigger] seconds_between(self.start_time_ms, now_ms),
                ),
    {
        let now = wall_clock_millis();
        let r = self.requests_per_second_at(now);
        assert(r == scaled_ratio(
            RATE_UNIT as nat,
            self.total_requests as nat,
            seconds_between(self.start_time_ms, now),
        ));
        r
    }

    /// Calculate total tokens processed
    pub fn total_tokens(&self) -> (t: u64)
        requires
            self.total_input_tokens + self.total_output_tokens <= u64::MAX,
        ensures
            t == self.spec_total_tokens(),
    {
        self.total_input_tokens + self.total_output_tokens
    }

    /// Calculate average tokens per request, in thousandths of a token, zero
    /// where nothing was recorded
    pub fn average_tokens_per_request(&self) -> (r: u64)
        requires
            self.total_input_tokens + self.total_output_tokens <= u64::MAX,
        ensures
            r == scaled_ratio(
                RATE_UNIT as nat,
                self.spec_total_tokens(),
                self.total_requests as nat,
            ),
    {
        ratio(RATE_UNIT, self.total_tokens(), self.total_requests)
    }

    /// Calculate cost per token in thousandths of a billionth of a dollar,
    /// zero where no token was processed
    pub fn cost_per_token(&self) -> (r: u64)
        requires
            self.total_input_tokens + self.total_output_tokens <= u64::MAX,
        ensures
            r == scaled_ratio(
                RATE_UNIT as nat,
                self.total_cost_nanos as nat,
                self.spec_total_tokens(),
            ),
    {
        ratio(RATE_UNIT, self.total_cost_nanos, self.total_tokens())
    }

    /// Record a successful request
    pub fn record_success(
        &mut self,
        model: &str,
        latency_ms: u64,
        input_tokens: u64,
        output_tokens: u64,
        cost_nanos: u64,
    )
        requires
            old(self).total_requests < u64::MAX,
            old(self).successful_requests < u64::MAX,
            old(self).total_latency_ms + latency_ms <= u64::MAX,
            old(self).total_input_tokens + input_tokens <= u64::MAX,
            old(self).total_output_tokens + output_tokens <= u64::MAX,
            old(self).total_cost_nanos + cost_nanos <= u64::MAX,
            count_of(old(self).requests_by_model@, model@) < u64::MAX,
        ensures
            final(self).total_requests == old(self).total_requests + 1,
            final(self).successful_requests == old(self).successful_requests + 1,
            final(self).failed_requests == old(self).failed_requests,
            final(self).active_requests == old(self).active_requests,
            final(self).total_latency_ms == old(self).total_latency_ms + latency_ms,
            final(self).total_input_tokens == old(self).total_input_tokens + input_tokens,
            final(self).total_output_tokens == old(self).total_output_tokens + output_tokens,
            final(self).total_cost_nanos == old(self).total_cost_nanos + cost_nanos,
            final(self).requests_by_model@ == old(self).requests_by_model@.insert(
                model@,
                (count_of(old(self).requests_by_model@, model@) + 1) as u64,
            ),
            final(self).errors_by_type@ == old(self).errors_by_type@,
            final(self).start_time_ms == old(self).start_time_ms,
    {
        self.total_requests = self.total_requests + 1;
        self.successful_requests = self.successful_requests + 1;
        self.total_latency_ms = self.total_latency_ms + latency_ms;
        self.total_input_tokens = self.total_input_tokens + input_tokens;
        self.total_output_tokens = self.total_output_tokens + output_tokens;
        self.total_cost_nanos = self.total_cost_nanos + cost_nanos;
        bump(&mut self.requests_by_model, model);
        self.last_updated_ms = wall_clock_millis();
    }

    /// Record a failed request
    pub fn record_failure(&mut self, model: &str, error_type: &str, latency_ms: u64)
        requires
            old(self).total_requests < u64::MAX,
            old(self).failed_requests < u64::MAX,
            old(self).total_latency_ms + latency_ms <= u64::MAX,
            count_of(old(self).requests_by_model@, model@) < u64::MAX,
            count_of(old(self).errors_by_type@, error_type@) < u64::MAX,
        ensures
            final(self).total_requests == old(self).total_requests + 1,
            final(self).successful_requests == old(self).successful_requests,
            final(self).failed_requests == old(self).failed_requests + 1,
            final(self).active_requests == old(self).active_requests,
            final(self).total_latency_ms == old(self).total_latency_ms + latency_ms,
            final(self).total_input_tokens == old(self).total_input_tokens,
            final(self).total_output_tokens == old(self).total_output_tokens,
            final(self).total_cost_nanos == old(self).total_cost_nanos,
            final(self).requests_by_model@ == old(self).requests_by_model@.insert(
                model@,
                (count_of(old(self).requests_by_model@, model@) + 1) as u64,
            ),
            final(self).errors_by_type@ == old(self).errors_by_type@.insert(
                error_type@,
                (count_of(old(self).errors_by_type@, error_type@) + 1) as u64,
            ),
            final(self).start_time_ms == old(self).start_time_ms,
    {
        self.total_requests = self.total_requests + 1;
        self.failed_requests = self.failed_requests + 1;
        self.total_latency_ms = self.total_latency_ms + latency_ms;
        bump(&mut self.requests_by_model, model);
        bump(&mut self.errors_by_type, error_type);
        self.last_updated_ms = wall_clock_millis();
    }

    /// Get the most frequently used model: one whose count no other exceeds
    pub fn most_used_model(&self) -> (r: Option<(&String, u64)>)
        ensures
            r is None <==> self.requests_by_model@ == Map::<Seq<char>, u64>::empty(),
            r matches Some((k, c)) ==> self.requests_by_model@.contains_key(k@)
                && self.requests_by_model@[k@] == c && forall|other: Seq<char>|
                self.requests_by_model@.contains_key(other) ==> self.requests_by_model@[other]
                    <= c,
    {
        largest(&self.requests_by_model)
    }

    /// Get the most common error type: one whose count no other exceeds
    pub fn most_common_error(&self) -> (r: Option<(&String, u64)>)
        ensures
            r is None <==> self.errors_by_type@ == Map::<Seq<char>, u64>::empty(),
            r matches Some((k, c)) ==> self.errors_by_type@.contains_key(k@)
                && self.errors_by_type@[k@] == c && forall|other: Seq<char>|
                self.errors_by_type@.contains_key(other) ==> self.errors_by_type@[other] <= c,
    {
        largest(&self.errors_by_type)
    }

    /// Reset all metrics
    pub fn reset(&mut self)
        ensures
            final(self).is_zero(),
    {
        *self = BedrockMetrics::new();
    }

    /// Get a summary of key metrics as read at `now_ms`
    pub fn summary_at(&self, now_ms: i64) -> (s: MetricsSummary)
        requires
            self.total_input_tokens + self.total_output_tokens <= u64::MAX,
        ensures
            s == self.summary_of(now_ms),
    {
        MetricsSummary {
            total_requests: self.total_requests,
            success_rate: self.success_rate(),
            average_latency_ms: self.average_latency_ms(),
            requests_per_second: self.requests_per_second_at(now_ms),
            total_tokens: self.total_tokens(),
            total_cost_nanos: self.total_cost_nanos,
            active_requests: self.active_requests,
            uptime_seconds: elapsed_seconds(self.start_time_ms, now_ms),
        }
    }

    /// Get a summary of key metrics
    pub fn summary(&self) -> (s: MetricsSummary)
        requires
            self.total_input_tokens + self.total_output_tokens <= u64::MAX,
        ensures
            exists|now_ms: i64| s == #[trigger] self.summary_of(now_ms),
    {
        let now = wall_clock_millis();
        let s = self.summary_at(now);
        assert(s == self.summary_of(now));
        s
    }
}

impl Default for BedrockMetrics {
    fn default() -> (m: Self)
        ensures
            m.is_zero(),
    {
        BedrockMetrics::new()
    }
}

/// Something that happens to a request, as the counters see it.
#[derive(Debug, Clone, Copy)]
pub enum MetricEvent {
    /// A request started
    Start,
    /// A request completed successfully
    Success {
        /// How long it took
        latency_ms: u64,
        /// Tokens read
        input_tokens: u64,
        /// Tokens written
        output_tokens: u64,
    },
    /// A request failed
    Failure {
        /// How long it took
        latency_ms: u64,
    },
}

/// The counters as mathematical values.
pub struct MetricsCounts {
    /// Requests started
    pub total_requests: int,
    /// Requests completed successfully
    pub successful_requests: int,
    /// Requests that failed
    pub failed_requests: int,
    /// Requests started and not yet completed
    pub active_requests: int,
    /// Latency of all completed requests
    pub total_latency_ms: int,
    /// Tokens read
    pub total_input_tokens: int,
    /// Tokens written
    pub total_output_tokens: int,
}

impl MetricsCounts {
    /// Counters on which nothing has been recorded.
    pub open spec fn fresh() -> MetricsCounts {
        MetricsCounts {
            total_requests: 0,
            successful_requests: 0,
            failed_requests: 0,
            active_requests: 0,
            total_latency_ms: 0,
            total_input_tokens: 0,
            total_output_tokens: 0,
        }
    }

    /// Every request that started has completed or is still active.
    pub open spec fn consistent(self) -> bool {
        &&& self.total_requests == self.successful_requests + self.failed_requests
            + self.active_requests
        &&& self.successful_requests >= 0
        &&& self.failed_requests >= 0
        &&& self.active_requests >= 0
    }

    /// The number of active requests once one of them has completed. A
    /// completion that no start went before leaves it at zero.
    pub open spec fn one_fewer_active(self) -> int {
        if self.active_requests > 0 {
            self.active_requests - 1
        } else {
            0
        }
    }

    /// The counters after one event.
    pub open spec fn step(self, event: MetricEvent) -> MetricsCounts {
        match event {
            MetricEvent::Start => MetricsCounts {
                total_requests: self.total_requests + 1,
                active_requests: self.active_requests + 1,
                ..self
            },
            MetricEvent::Success { latency_ms, input_tokens, output_tokens } => MetricsCounts {
                successful_requests: self.successful_requests + 1,
                active_requests: self.one_fewer_active(),
                total_latency_ms: self.total_latency_ms + latency_ms,
                total_input_tokens: self.total_input_tokens + input_tokens,
                total_output_tokens: self.total_output_tokens + output_tokens,
                ..self
            },
            MetricEvent::Failure { latency_ms } => MetricsCounts {
                failed_requests: self.failed_requests + 1,
                active_requests: self.one_fewer_active(),
                total_latency_ms: self.total_latency_ms + latency_ms,
                ..self
            },
        }
    }

    /// The counters after a sequence of events.
    pub open spec fn run(self, events: Seq<MetricEvent>) -> MetricsCounts
        decreases events.len(),
    {
        if events.len() == 0 {
            self
        } else {
            self.run(events.drop_last()).step(events.last())
        }
    }

    /// The success rate in thousandths of a percent, zero where no request
    /// was counted.
    pub open spec fn success_rate(self) -> int {
        if self.total_requests == 0 {
            0
        } else {
            100 * RATE_UNIT * self.successful_requests / self.total_requests
        }
    }

    /// The average latency in thousandths of a millisecond, zero where no
    /// request was counted.
    pub open spec fn average_latency_ms(self) -> int {
        if self.total_requests == 0 {
            0
        } else {
            RATE_UNIT * self.total_latency_ms / self.total_requests
        }
    }
}

/// How many of the events are starts.
pub open spec fn count_starts(events: Seq<MetricEvent>) -> nat
    decreases events.len(),
{
    if events.len() == 0 {
        0
    } else {
        count_starts(events.drop_last()) + if events.last() is Start {
            1nat
        } else {
            0nat
        }
    }
}

/// How many of the events are successes.
pub open spec fn count_successes(events: Seq<MetricEvent>) -> nat
    decreases events.len(),
{
    if events.len() == 0 {
        0
    } else {
        count_successes(events.drop_last()) + if events.last() is Success {
            1nat
        } else {
            0nat
        }
    }
}

/// How many of the events are failures.
pub open spec fn count_failures(events: Seq<MetricEvent>) -> nat
    decreases events.len(),
{
    if events.len() == 0 {
        0
    } else {
        count_failures(events.drop_last()) + if events.last() is Failure {
            1nat
        } else {
            0nat
        }
    }
}

/// Whether every completion among the events comes after a start of its own.
pub open spec fn starts_come_first(events: Seq<MetricEvent>) -> bool
    decreases events.len(),
{
    events.len() == 0 || (starts_come_first(events.drop_last()) && (events.last() is Start
        || count_starts(events.drop_last()) > count_successes(events.drop_last())
        + count_failures(events.drop_last())))
}

/// Whatever the order of the events, fresh counters count each kind exactly,
/// and the number of active requests never falls below zero. Where every
/// completion comes after a start of its own, the active requests are those
/// that started and have not completed.
pub proof fn lemma_run_counts(events: Seq<MetricEvent>)
    ensures
        ({
            let c = MetricsCounts::fresh().run(events);
            &&& c.total_requests == count_starts(events)
            &&& c.successful_requests == count_successes(events)
            &&& c.failed_requests == count_failures(events)
            &&& c.active_requests >= 0
            &&& starts_come_first(events) ==> c.active_requests == count_starts(events)
                - count_successes(events) - count_failures(events)
        }),
    decreases events.len(),
{
    if events.len() > 0 {
        lemma_run_counts(events.drop_last());
    }
}

/// No event makes a counter smaller; only the number of active requests goes
/// down, when a request completes, and never below zero.
pub proof fn lemma_counters_never_decrease(c: MetricsCounts, event: MetricEvent)
    ensures
        c.step(event).total_requests >= c.total_requests,
        c.step(event).successful_requests >= c.successful_requests,
        c.step(event).failed_requests >= c.failed_requests,
        c.step(event).total_latency_ms >= c.total_latency_ms,
        c.step(event).total_input_tokens >= c.total_input_tokens,
        c.step(event).total_output_tokens >= c.total_output_tokens,
        c.active_requests >= 0 ==> c.step(event).active_requests >= 0,
        c.consistent() && (event is Start || c.active_requests > 0) ==> c.step(event).consistent(),
{
}

/// After N successes and M failures, recorded in any order among the starts,
/// each after a start of its own, with every started request completed: the
/// total is N + M, the success rate is 100 * N / (N + M) percent, to the
/// thousandth, or zero where N + M is zero, and no request is active.
pub proof fn lemma_completed_requests(events: Seq<MetricEvent>)
    requires
        starts_come_first(events),
        count_starts(events) == count_successes(events) + count_failures(events),
    ensures
        ({
            let c = MetricsCounts::fresh().run(events);
            let n = count_successes(events);
            let m = count_failures(events);
            &&& c.total_requests == n + m
            &&& c.active_requests == 0
            &&& c.success_rate() == (if n + m == 0 {
                0
            } else {
                100 * RATE_UNIT as nat * n / (n + m)
            })
            &&& c.consistent()
        }),
{
    lemma_run_counts(events);
}

/// Metrics collector for requests in flight: every started request is counted
/// as active until it completes, one way or the other.
#[derive(Debug)]
pub struct AtomicMetrics {
    total_requests: u64,
    successful_requests: u64,
    failed_requests: u64,
    active_requests: u64,
    total_latency_ms: u64,
    total_input_tokens: u64,
    total_output_tokens: u64,
    start_time_ms: i64,
}

impl View for AtomicMetrics {
    type V = MetricsCounts;

    closed spec fn view(&self) -> MetricsCounts {
        MetricsCounts {
            total_requests: self.total_requests as int,
            successful_requests: self.successful_requests as int,
            failed_requests: self.failed_requests as int,
            active_requests: self.active_requests as int,
            total_latency_ms: self.total_latency_ms as int,
            total_input_tokens: self.total_input_tokens as int,
            total_output_tokens: self.total_output_tokens as int,
        }
    }
}

impl AtomicMetrics {
    #[verifier::type_invariant]
    spec fn inv(self) -> bool {
        self.active_requests <= self.total_requests
    }

    /// When counting began, in milliseconds since the Unix epoch.
    pub closed spec fn spec_start_time_ms(&self) -> i64 {
        self.start_time_ms
    }

    /// Whether the counters have room for one more event of this kind.
    pub open spec fn has_room(&self, event: MetricEvent) -> bool {
        match event {
            MetricEvent::Start => self@.total_requests < u64::MAX,
            MetricEvent::Success { latency_ms, input_tokens, output_tokens } => {
                &&& self@.successful_requests < u64::MAX
                &&& self@.total_latency_ms + latency_ms <= u64::MAX
                &&& self@.total_input_tokens + input_tokens <= u64::MAX
                &&& self@.total_output_tokens + output_tokens <= u64::MAX
            },
            MetricEvent::Failure { latency_ms } => {
                &&& self@.failed_requests < u64::MAX
                &&& self@.total_latency_ms + latency_ms <= u64::MAX
            },
        }
    }

    /// The snapshot of the counters as read at `now_ms`.
    pub open spec fn snapshot_of(&self, now_ms: i64) -> MetricsSummary {
        MetricsSummary {
            total_requests: self@.total_requests as u64,
            success_rate: scaled_ratio(
                100 * RATE_UNIT as nat,
                self@.successful_requests as nat,
                self@.total_requests as nat,
            ) as u64,
            average_latency_ms: scaled_ratio(
                RATE_UNIT as nat,
                self@.total_latency_ms as nat,
                self@.total_requests as nat,
            ) as u64,
            requests_per_second: scaled_ratio(
                RATE_UNIT as nat,
                self@.total_requests as nat,
                seconds_between(self.spec_start_time_ms(), now_ms),
            ) as u64,
            total_tokens: if self@.total_input_tokens + self@.total_output_tokens > u64::MAX {
                u64::MAX
            } else {
                (self@.total_input_tokens + self@.total_output_tokens) as u64
            },
            total_cost_nanos: 0,
            active_requests: self@.active_requests as u64,
            uptime_seconds: seconds_between(self.spec_start_time_ms(), now_ms) as u64,
        }
    }

    /// Whether the counters have room for one more event of this kind.
    pub fn has_room_for(&self, event: &MetricEvent) -> (b: bool)
        ensures
            b == self.has_room(*event),
    {
        match event {
            MetricEvent::Start => self.total_requests < u64::MAX,
            MetricEvent::Success { latency_ms, input_tokens, output_tokens } => {
                self.successful_requests < u64::MAX && *latency_ms <= u64::MAX
                    - self.total_latency_ms
                    && *input_tokens <= u64::MAX - self.total_input_tokens && *output_tokens
                    <= u64::MAX - self.total_output_tokens
            },
            MetricEvent::Failure { latency_ms } => {
                self.failed_requests < u64::MAX && *latency_ms <= u64::MAX - self.total_latency_ms
            },
        }
    }

    /// Create new metrics
    pub fn new() -> (m: Self)
        ensures
            m@ == MetricsCounts::fresh(),
    {
        AtomicMetrics {
            total_requests: 0,
            successful_requests: 0,
            failed_requests: 0,
            active_requests: 0,
            total_latency_ms: 0,
            total_input_tokens: 0,
            total_output_tokens: 0,
            start_time_ms: wall_clock_millis(),
        }
    }

    /// Increment request start
    pub fn start_request(&mut self)
        requires
            old(self).has_room(MetricEvent::Start),
        ensures
            final(self)@ == old(self)@.step(MetricEvent::Start),
            old(self)@.consistent() ==> final(self)@.consistent(),
            final(self).spec_start_time_ms() == old(self).spec_start_time_ms(),
    {
        proof {
            use_type_invariant(&*self);
        }
        *self = AtomicMetrics {
            total_requests: self.total_requests + 1,
            successful_requests: self.successful_requests,
            failed_requests: self.failed_requests,
            active_requests: self.active_requests + 1,
            total_latency_ms: self.total_latency_ms,
            total_input_tokens: self.total_input_tokens,
            total_output_tokens: self.total_output_tokens,
            start_time_ms: self.start_time_ms,
        };
    }

    /// Record successful request completion
    pub fn complete_success(&mut self, latency_ms: u64, input_tokens: u64, output_tokens: u64)
        requires
            old(self).has_room(MetricEvent::Success { latency_ms, input_tokens, output_tokens }),
        ensures
            final(self)@ == old(self)@.step(
                MetricEvent::Success { latency_ms, input_tokens, output_tokens },
            ),
            final(self)@.active_requests >= 0,
            old(self)@.consistent() && old(self)@.active_requests > 0 ==> final(self)@.consistent(),
            final(self).spec_start_time_ms() == old(self).spec_start_time_ms(),
    {
        proof {
            use_type_invariant(&*self);
        }
        *self = AtomicMetrics {
            total_requests: self.total_requests,
            successful_requests: self.successful_requests + 1,
            failed_requests: self.failed_requests,
            active_requests: if self.active_requests > 0 {
                self.active_requests - 1
            } else {
                0
            },
            total_latency_ms: self.total_latency_ms + latency_ms,
            total_input_tokens: self.total_input_tokens + input_tokens,
            total_output_tokens: self.total_output_tokens + output_tokens,
            start_time_ms: self.start_time_ms,
        };
    }

    /// Record failed request completion
    pub fn complete_failure(&mut self, latency_ms: u64)
        requires
            old(self).has_room(MetricEvent::Failure { latency_ms }),
        ensures
            final(self)@ == old(self)@.step(MetricEvent::Failure { latency_ms }),
            final(self)@.active_requests >= 0,
            old(self)@.consistent() && old(self)@.active_requests > 0 ==> final(self)@.consistent(),
            final(self).spec_start_time_ms() == old(self).spec_start_time_ms(),
    {
        proof {
            use_type_invariant(&*self);
        }
        *self = AtomicMetrics {
            total_requests: self.total_requests,
            successful_requests: self.successful_requests,
            failed_requests: self.failed_requests + 1,
            active_requests: if self.active_requests > 0 {
                self.active_requests - 1
            } else {
                0
            },
            total_latency_ms: self.total_latency_ms + latency_ms,
            total_input_tokens: self.total_input_tokens,
            total_output_tokens: self.total_output_tokens,
            start_time_ms: self.start_time_ms,
        };
    }

    /// The number of requests in flight.
    pub fn active_requests(&self) -> (n: u64)
        ensures
            n == self@.active_requests,
    {
        self.active_requests
    }

    /// Get the snapshot of the metrics as read at `now_ms`
    pub fn snapshot_at(&self, now_ms: i64) -> (s: MetricsSummary)
        ensures
            s == self.snapshot_of(now_ms),
            s.total_requests == self@.total_requests,
            s.active_requests == self@.active_requests,
            self@.average_latency_ms() <= u64::MAX ==> s.average_latency_ms
                == self@.average_latency_ms(),
            self@.successful_requests <= self@.total_requests ==> s.success_rate
                == self@.success_rate() && s.success_rate <= 100 * RATE_UNIT,
    {
        let total_requests = self.total_requests;
        let success_rate = ratio(100 * RATE_UNIT, self.successful_requests, total_requests);
        let average_latency_ms = ratio(RATE_UNIT, self.total_latency_ms, total_requests);
        let uptime_seconds = elapsed_seconds(self.start_time_ms, now_ms);
        let requests_per_second = ratio(RATE_UNIT, total_requests, uptime_seconds);
        let tokens: u128 = self.total_input_tokens as u128 + self.total_output_tokens as u128;
        let total_tokens: u64 = if tokens > u64::MAX as u128 {
            u64::MAX
        } else {
            tokens as u64
        };
        proof {
            let s = self.successful_requests as int;
            let t = self.total_requests as int;
            if t > 0 {
                if s <= t {
                    assert(100_000 * s / t <= 100_000) by (nonlinear_arith)
                        requires
                            0 <= s <= t,
                            t > 0,
                    ;
                }
            }
        }
        MetricsSummary {
            total_requests,
            success_rate,
            average_latency_ms,
            requests_per_second,
            total_tokens,
            total_cost_nanos: 0,
            active_requests: self.active_requests,
            uptime_seconds,
        }
    }

    /// Get current snapshot of metrics
    pub fn snapshot(&self) -> (s: MetricsSummary)
        ensures
            exists|now_ms: i64| s == #[trigger] self.snapshot_of(now_ms),
            s.total_requests == self@.total_requests,
            s.active_requests == self@.active_requests,
            self@.average_latency_ms() <= u64::MAX ==> s.average_latency_ms
                == self@.average_latency_ms(),
            self@.successful_requests <= self@.total_requests ==> s.success_rate
                == self@.success_rate() && s.success_rate <= 100 * RATE_UNIT,
    {
        let now = wall_clock_millis();
        let s = self.snapshot_at(now);
        assert(s == self.snapshot_of(now));
        s
    }
}

impl Default for AtomicMetrics {
    fn default() -> (m: Self)
        ensures
            m@ == MetricsCounts::fresh(),
    {
        AtomicMetrics::new()
    }
}

} // verus!
