//! One logical request, step by step: lease, breaker, upstream call, and on
//! failure the decision to wait and try again or to give up. The executor
//! decides and keeps the books; the caller waits, calls and sleeps.

use vstd::prelude::*;
use vstd::string::*;
use crate::bedrock::config::BedrockConfig;
use crate::bedrock::error::{BedrockError, ErrorCategory};
use crate::bedrock::metrics::{AtomicMetrics, MetricEvent, MetricsCounts};
use crate::bedrock::pool::{ClientPool, PoolStats, PooledClient};
use crate::bedrock::retry::{
    BreakerView, CircuitBreaker, RetryDecision, RetryExecutor, RetryStrategy,
};

verus! {

/// The parts that every request goes through.
pub struct ResilienceCore {
    /// Decides whether and when to retry
    pub retry: RetryExecutor,
    /// Rejects fast while the upstream is down
    pub breaker: CircuitBreaker,
    /// Bounds the requests in flight
    pub pool: ClientPool,
    /// Counts what happened
    pub metrics: AtomicMetrics,
}

/// The failures in a row that open a client's breaker.
pub const BREAKER_FAILURE_THRESHOLD: usize = 5;

/// The successes in a row that close a client's breaker again.
pub const BREAKER_SUCCESS_THRESHOLD: usize = 2;

/// How long a client's open breaker rejects calls, in milliseconds.
pub const BREAKER_TIMEOUT_MS: u64 = 30_000;

impl ResilienceCore {
    /// The parts of a client with the given configuration: a pool of the
    /// configured size with every client available, the retry strategy of the
    /// configuration, a closed breaker and counters at zero. A configuration
    /// with an option out of range is refused.
    pub fn new(config: BedrockConfig) -> (r: Result<Self, BedrockError>)
        ensures
            r is Ok <==> config.valid(),
            r matches Err(e) ==> e is Configuration && config.first_invalid() is Some
                && e.spec_detail() == config.first_invalid()->0.name() + " is out of range"@,
            r matches Ok(core) ==> {
                &&& core.pool.spec_config() == config
                &&& core.pool.spec_stats() == PoolStats::fresh(config.pool_size)
                &&& !core.pool.spec_closed()
                &&& core.breaker@ == BreakerView::initial(
                    BREAKER_FAILURE_THRESHOLD as nat,
                    BREAKER_SUCCESS_THRESHOLD as nat,
                    BREAKER_TIMEOUT_MS as nat,
                )
                &&& core.metrics@ == MetricsCounts::fresh()
                &&& forall|c: ErrorCategory| #[trigger]
                    core.retry.spec_strategy().policy_of(c) == if c is Server || c is Internal {
                        RetryStrategy::configured_policy(config)
                    } else {
                        RetryStrategy::standard_policy(c)
                    }
            },
    {
        match config.validate() {
            Err(e) => {
                return Err(e);
            },
            Ok(()) => {},
        }
        let strategy = RetryStrategy::from_config(&config);
        match ClientPool::new(config) {
            Err(e) => Err(e),
            Ok(pool) => Ok(
                ResilienceCore {
                    retry: RetryExecutor::new(strategy),
                    breaker: CircuitBreaker::new(
                        BREAKER_FAILURE_THRESHOLD,
                        BREAKER_SUCCESS_THRESHOLD,
                        BREAKER_TIMEOUT_MS,
                    ),
                    pool,
                    metrics: AtomicMetrics::new(),
                },
            ),
        }
    }
}

/// Why a logical request failed for good.
#[derive(Debug)]
pub enum RequestFailure {
    /// The circuit breaker was open; the upstream was not called
    CircuitOpen,
    /// The pool was closed; no lease can be had any more
    PoolClosed(BedrockError),
    /// A failure that no retry would mend
    Permanent(BedrockError),
    /// A failure that might have passed, after the retries that the policy
    /// and its time budget allowed
    RetriesExhausted(BedrockError),
}

impl RequestFailure {
    /// The failure that ends a request after `error` was given up on.
    pub open spec fn giving_up_on(error: BedrockError) -> RequestFailure {
        if error.spec_category().retryable() {
            RequestFailure::RetriesExhausted(error)
        } else {
            RequestFailure::Permanent(error)
        }
    }

    /// The failure that ends a request after `error` was given up on: where
    /// the error is of a kind that is retried, the retries are exhausted;
    /// where it is not, the error stays as it is.
    pub fn after_giving_up(error: BedrockError) -> (failure: Self)
        ensures
            failure == Self::giving_up_on(error),
    {
        if error.category().is_retryable() {
            RequestFailure::RetriesExhausted(error)
        } else {
            RequestFailure::Permanent(error)
        }
    }

    /// Whether trying the whole request again later might help.
    pub open spec fn spec_is_retryable(&self) -> bool {
        self is CircuitOpen || self is RetriesExhausted
    }

    /// Whether trying the whole request again later might help.
    pub fn is_retryable(&self) -> (b: bool)
        ensures
            b == self.spec_is_retryable(),
    {
        match self {
            RequestFailure::CircuitOpen => true,
            RequestFailure::RetriesExhausted(_) => true,
            _ => false,
        }
    }

    /// A stable code for machines to read.
    pub fn code(&self) -> (c: &'static str)
        ensures
            c@ == match self {
                RequestFailure::CircuitOpen => "circuit_open"@,
                RequestFailure::PoolClosed(_) => "pool_closed"@,
                RequestFailure::Permanent(_) => "permanent"@,
                RequestFailure::RetriesExhausted(_) => "retries_exhausted"@,
            },
    {
        match self {
            RequestFailure::CircuitOpen => "circuit_open",
            RequestFailure::PoolClosed(_) => "pool_closed",
            RequestFailure::Permanent(_) => "permanent",
            RequestFailure::RetriesExhausted(_) => "retries_exhausted",
        }
    }

    /// What a failure says to people: the message of its cause, and for
    /// retries that ran out a word that says so.
    pub open spec fn spec_message(&self) -> Seq<char> {
        match self {
            RequestFailure::CircuitOpen => "Circuit breaker is open"@,
            RequestFailure::PoolClosed(e) => e.spec_prefix() + e.spec_detail(),
            RequestFailure::Permanent(e) => e.spec_prefix() + e.spec_detail(),
            RequestFailure::RetriesExhausted(e) => "All retries exhausted: "@ + (e.spec_prefix()
                + e.spec_detail()),
        }
    }

    /// A message for people to read. The cause is never left out.
    pub fn message(&self) -> (m: String)
        ensures
            m@ == self.spec_message(),
    {
        match self {
            RequestFailure::CircuitOpen => String::from_str("Circuit breaker is open"),
            RequestFailure::PoolClosed(e) => e.to_string(),
            RequestFailure::Permanent(e) => e.to_string(),
            RequestFailure::RetriesExhausted(e) => {
                let mut m = String::from_str("All retries exhausted: ");
                let cause = e.to_string();
                m.append(cause.as_str());
                m
            },
        }
    }

    /// The upstream or pool failure behind this one, if there is one.
    pub fn cause(&self) -> (e: Option<&BedrockError>)
        ensures
            match self {
                RequestFailure::CircuitOpen => e is None,
                RequestFailure::PoolClosed(inner) => e == Some(inner),
                RequestFailure::Permanent(inner) => e == Some(inner),
                RequestFailure::RetriesExhausted(inner) => e == Some(inner),
            },
    {
        match self {
            RequestFailure::CircuitOpen => None,
            RequestFailure::PoolClosed(inner) => Some(inner),
            RequestFailure::Permanent(inner) => Some(inner),
            RequestFailure::RetriesExhausted(inner) => Some(inner),
        }
    }
}

/// What the caller does next.
#[derive(Debug)]
pub enum Action {
    /// Call the upstream through the client at this position
    Invoke {
        /// The position of the leased client in the pool
        client: usize,
    },
    /// Sleep for this long, then report back with `woke`
    Sleep {
        /// The delay in milliseconds
        delay_ms: u64,
    },
    /// The request has succeeded
    Succeed,
    /// The request has failed for good
    Fail(RequestFailure),
}

/// Where a logical request stands.
#[derive(Debug)]
pub enum RunPhase {
    /// The next attempt needs a lease
    WaitingForLease,
    /// The upstream is being called through the leased client
    InFlight(PooledClient),
    /// The caller sleeps before the next attempt
    BackingOff,
    /// The request is over
    Finished,
}

/// The time from `started_ms` to `now_ms` on one clock, zero where the clock
/// went back.
pub open spec fn elapsed_between(started_ms: u64, now_ms: u64) -> u64 {
    if now_ms >= started_ms {
        (now_ms - started_ms) as u64
    } else {
        0
    }
}

/// The executor of one logical request.
#[derive(Debug)]
pub struct RequestExecutor {
    phase: RunPhase,
    attempt: usize,
    started_ms: u64,
}

impl RequestExecutor {
    /// Where the request stands.
    pub closed spec fn spec_phase(&self) -> RunPhase {
        self.phase
    }

    /// How many retries have been made so far.
    pub closed spec fn spec_attempt(&self) -> nat {
        self.attempt as nat
    }

    /// When the request began, on the breaker's clock.
    pub closed spec fn spec_started_ms(&self) -> u64 {
        self.started_ms
    }

    /// How many retries have been made so far.
    pub fn attempt(&self) -> (n: usize)
        ensures
            n == self.spec_attempt(),
    {
        self.attempt
    }

    /// Whether the request is over.
    pub fn is_finished(&self) -> (b: bool)
        ensures
            b == (self.spec_phase() is Finished),
    {
        match self.phase {
            RunPhase::Finished => true,
            _ => false,
        }
    }

    /// The time since the request began.
    fn elapsed(&self, now_ms: u64) -> (e: u64)
        ensures
            e == elapsed_between(self.spec_started_ms(), now_ms),
    {
        if now_ms >= self.started_ms {
            now_ms - self.started_ms
        } else {
            0
        }
    }

    /// Whether `on_lease` may be called: the request waits for a lease and
    /// the counters have room for what the step may record.
    pub fn ready_for_lease(&self, core: &ResilienceCore, waited_ms: u64, now_ms: u64) -> (b: bool)
        ensures
            b == (self.spec_phase() is WaitingForLease && core.pool.spec_stats().total_acquisitions
                < u64::MAX && core.pool.spec_stats().total_releases < u64::MAX
                && core.pool.spec_stats().total_wait_time_ms + waited_ms <= u64::MAX
                && core.pool.spec_stats().acquisition_timeouts < u64::MAX && core.metrics.has_room(
                MetricEvent::Failure {
                    latency_ms: elapsed_between(self.spec_started_ms(), now_ms),
                },
            )),
    {
        let waiting = match self.phase {
            RunPhase::WaitingForLease => true,
            _ => false,
        };
        let stats = core.pool.stats();
        let failure = MetricEvent::Failure { latency_ms: self.elapsed(now_ms) };
        waiting && stats.total_acquisitions < u64::MAX && stats.total_releases < u64::MAX
            && waited_ms <= u64::MAX - stats.total_wait_time_ms && stats.acquisition_timeouts
            < u64::MAX && core.metrics.has_room_for(&failure)
    }

    /// Whether `on_success` may be called: the request is in flight on a
    /// lease of this pool and the counters have room for the success.
    pub fn ready_for_success(
        &self,
        core: &ResilienceCore,
        latency_ms: u64,
        input_tokens: u64,
        output_tokens: u64,
    ) -> (b: bool)
        ensures
            b == (self.spec_phase() is InFlight && core.pool.spec_stats().active_clients > 0
                && core.metrics.has_room(
                MetricEvent::Success { latency_ms, input_tokens, output_tokens },
            )),
    {
        let in_flight = match self.phase {
            RunPhase::InFlight(_) => true,
            _ => false,
        };
        let success = MetricEvent::Success { latency_ms, input_tokens, output_tokens };
        in_flight && core.pool.stats().active_clients > 0 && core.metrics.has_room_for(&success)
    }

    /// Whether `on_failure` may be called: the request is in flight on a
    /// lease of this pool and the counters have room for the failure.
    pub fn ready_for_failure(&self, core: &ResilienceCore, now_ms: u64) -> (b: bool)
        ensures
            b == (self.spec_phase() is InFlight && core.pool.spec_stats().active_clients > 0
                && core.metrics.has_room(
                MetricEvent::Failure {
                    latency_ms: elapsed_between(self.spec_started_ms(), now_ms),
                },
            )),
    {
        let in_flight = match self.phase {
            RunPhase::InFlight(_) => true,
            _ => false,
        };
        let failure = MetricEvent::Failure { latency_ms: self.elapsed(now_ms) };
        in_flight && core.pool.stats().active_clients > 0 && core.metrics.has_room_for(&failure)
    }

    /// Whether `woke` may be called: the request is backing off.
    pub fn ready_to_wake(&self) -> (b: bool)
        ensures
            b == (self.spec_phase() is BackingOff && self.spec_attempt() < usize::MAX),
    {
        let backing_off = match self.phase {
            RunPhase::BackingOff => true,
            _ => false,
        };
        backing_off && self.attempt < usize::MAX
    }

    /// Begin a logical request at `now_ms` on the breaker's clock: it is
    /// counted as started, and its first attempt needs a lease.
    pub fn begin(core: &mut ResilienceCore, now_ms: u64) -> (run: Self)
        requires
            old(core).metrics.has_room(MetricEvent::Start),
        ensures
            run.spec_phase() is WaitingForLease,
            run.spec_attempt() == 0,
            run.spec_started_ms() == now_ms,
            final(core).metrics@ == old(core).metrics@.step(MetricEvent::Start),
            final(core).metrics.spec_start_time_ms() == old(core).metrics.spec_start_time_ms(),
            final(core).breaker == old(core).breaker,
            final(core).pool == old(core).pool,
            final(core).retry == old(core).retry,
    {
        core.metrics.start_request();
        RequestExecutor { phase: RunPhase::WaitingForLease, attempt: 0, started_ms: now_ms }
    }

    /// End the request with a failure: it is counted as failed.
    fn finish_failed(&mut self, core: &mut ResilienceCore, now_ms: u64, failure: RequestFailure) -> (action:
        Action)
        requires
            old(core).metrics.has_room(
                MetricEvent::Failure {
                    latency_ms: elapsed_between(old(self).spec_started_ms(), now_ms),
                },
            ),
        ensures
            action == Action::Fail(failure),
            final(self).spec_phase() is Finished,
            final(self).spec_attempt() == old(self).spec_attempt(),
            final(self).spec_started_ms() == old(self).spec_started_ms(),
            final(core).metrics@ == old(core).metrics@.step(
                MetricEvent::Failure {
                    latency_ms: elapsed_between(old(self).spec_started_ms(), now_ms),
                },
            ),
            final(core).breaker == old(core).breaker,
            final(core).pool == old(core).pool,
            final(core).retry == old(core).retry,
    {
        let latency = self.elapsed(now_ms);
        core.metrics.complete_failure(latency);
        self.phase = RunPhase::Finished;
        Action::Fail(failure)
    }

    /// Decide what follows a failure that is not the breaker's: wait and try
    /// again where the policy and its time budget allow, else give up.
    fn after_failure(
        &mut self,
        core: &mut ResilienceCore,
        error: BedrockError,
        now_ms: u64,
        sample: u64,
    ) -> (action: Action)
        requires
            old(core).metrics.has_room(
                MetricEvent::Failure {
                    latency_ms: elapsed_between(old(self).spec_started_ms(), now_ms),
                },
            ),
        ensures
            final(self).spec_attempt() == old(self).spec_attempt(),
            final(self).spec_started_ms() == old(self).spec_started_ms(),
            final(core).breaker == old(core).breaker,
            final(core).pool == old(core).pool,
            final(core).retry == old(core).retry,
            match RetryExecutor::decision(
                old(core).retry.spec_strategy(),
                error.spec_category(),
                old(self).spec_attempt(),
                elapsed_between(old(self).spec_started_ms(), now_ms) as nat,
                sample as nat,
            ) {
                RetryDecision::RetryAfter(delay_ms) => {
                    &&& action == Action::Sleep { delay_ms }
                    &&& final(self).spec_phase() is BackingOff
                    &&& final(core).metrics == old(core).metrics
                },
                RetryDecision::GiveUp => {
                    &&& action == Action::Fail(RequestFailure::giving_up_on(error))
                    &&& final(self).spec_phase() is Finished
                    &&& final(core).metrics@ == old(core).metrics@.step(
                        MetricEvent::Failure {
                            latency_ms: elapsed_between(old(self).spec_started_ms(), now_ms),
                        },
                    )
                },
            },
    {
        let elapsed = self.elapsed(now_ms);
        match core.retry.decide_with(&error, self.attempt, elapsed, sample) {
            RetryDecision::RetryAfter(delay_ms) => {
                self.phase = RunPhase::BackingOff;
                Action::Sleep { delay_ms }
            },
            RetryDecision::GiveUp => {
                let failure = RequestFailure::after_giving_up(error);
                self.finish_failed(core, now_ms, failure)
            },
        }
    }

    /// Take a lease for the next attempt, for which the caller has waited
    /// `waited_ms`, and ask the breaker.
    ///
    /// A closed pool ends the request. An exhausted pool is a failure of
    /// the resource category, retried by its policy. With a lease in hand the
    /// breaker is asked: where it refuses, the lease goes back at once and the
    /// request ends with `CircuitOpen`, without a call and without a word from
    /// the retry policy; where it allows, the caller is told to call the upstream.
    pub fn on_lease(
        &mut self,
        core: &mut ResilienceCore,
        waited_ms: u64,
        now_ms: u64,
        sample: u64,
    ) -> (action: Action)
        requires
            old(self).spec_phase() is WaitingForLease,
            old(core).pool.spec_stats().total_acquisitions < u64::MAX,
            old(core).pool.spec_stats().total_releases < u64::MAX,
            old(core).pool.spec_stats().total_wait_time_ms + waited_ms <= u64::MAX,
            old(core).pool.spec_stats().acquisition_timeouts < u64::MAX,
            old(core).metrics.has_room(
                MetricEvent::Failure {
                    latency_ms: elapsed_between(old(self).spec_started_ms(), now_ms),
                },
            ),
        ensures
            final(self).spec_attempt() == old(self).spec_attempt(),
            final(self).spec_started_ms() == old(self).spec_started_ms(),
            final(core).retry == old(core).retry,
            final(core).pool.spec_config() == old(core).pool.spec_config(),
            final(core).pool.spec_closed() == old(core).pool.spec_closed(),
            final(core).breaker.spec_started() == old(core).breaker.spec_started(),
            final(core).metrics@.total_requests == old(core).metrics@.total_requests,
            action is Invoke <==> old(core).pool.can_grant() && old(core).breaker@.allows(
                now_ms as nat,
            ),
            old(core).pool.can_grant() ==> final(core).breaker@ == old(core).breaker@.after_probe(
                now_ms as nat,
            ),
            old(core).pool.spec_closed() ==> {
                &&& action matches Action::Fail(RequestFailure::PoolClosed(e))
                &&& e is PoolExhausted
                &&& e.spec_detail() == "pool is closed"@
                &&& final(self).spec_phase() is Finished
                &&& final(core).pool.spec_stats() == old(core).pool.spec_stats()
                &&& final(core).breaker@ == old(core).breaker@
                &&& final(core).metrics@ == old(core).metrics@.step(
                    MetricEvent::Failure {
                        latency_ms: elapsed_between(old(self).spec_started_ms(), now_ms),
                    },
                )
            },
            !old(core).pool.spec_closed() && old(core).pool.spec_stats().available_clients == 0
                ==> {
                &&& final(core).pool.spec_stats() == old(core).pool.spec_stats().after_timeout()
                &&& final(core).breaker@ == old(core).breaker@
                &&& match RetryExecutor::decision(
                    old(core).retry.spec_strategy(),
                    ErrorCategory::Resource,
                    old(self).spec_attempt(),
                    elapsed_between(old(self).spec_started_ms(), now_ms) as nat,
                    sample as nat,
                ) {
                    RetryDecision::RetryAfter(delay_ms) => action == Action::Sleep { delay_ms }
                        && final(self).spec_phase() is BackingOff && final(core).metrics == old(core).metrics,
                    RetryDecision::GiveUp => action matches Action::Fail(
                        RequestFailure::RetriesExhausted(e),
                    ) && e is PoolExhausted && e.spec_detail() == "no client available"@ && final(self).spec_phase() is Finished
                        && final(core).metrics@ == old(core).metrics@.step(
                        MetricEvent::Failure {
                            latency_ms: elapsed_between(old(self).spec_started_ms(), now_ms),
                        },
                    ),
                }
            },
            old(core).pool.can_grant() && old(core).breaker@.allows(now_ms as nat) ==> {
                &&& action == Action::Invoke {
                    client: old(core).pool.spec_stats().next_client() as usize,
                }
                &&& final(self).spec_phase() matches RunPhase::InFlight(lease)
                &&& lease.spec_client() == old(core).pool.spec_stats().next_client()
                &&& final(core).pool.spec_stats() == old(core).pool.spec_stats().after_acquire(
                    waited_ms,
                )
                &&& final(core).metrics == old(core).metrics
            },
            old(core).pool.can_grant() && !old(core).breaker@.allows(now_ms as nat) ==> {
                &&& action == Action::Fail(RequestFailure::CircuitOpen)
                &&& final(self).spec_phase() is Finished
                &&& final(core).pool.spec_stats() == old(core).pool.spec_stats().after_acquire(
                    waited_ms,
                ).after_release()
                &&& final(core).metrics@ == old(core).metrics@.step(
                    MetricEvent::Failure {
                        latency_ms: elapsed_between(old(self).spec_started_ms(), now_ms),
                    },
                )
            },
    {
        let was_closed = core.pool.is_closed();
        match core.pool.acquire(waited_ms) {
            Err(e) => {
                if was_closed {
                    self.finish_failed(core, now_ms, RequestFailure::PoolClosed(e))
                } else {
                    self.after_failure(core, e, now_ms, sample)
                }
            },
            Ok(lease) => {
                if core.breaker.can_execute_at(now_ms) {
                    let client = lease.client();
                    self.phase = RunPhase::InFlight(lease);
                    Action::Invoke { client }
                } else {
                    core.pool.release_client(lease);
                    self.finish_failed(core, now_ms, RequestFailure::CircuitOpen)
                }
            },
        }
    }

    /// Take the lease out of a request in flight.
    fn take_lease(&mut self) -> (lease: PooledClient)
        requires
            old(self).spec_phase() is InFlight,
        ensures
            old(self).spec_phase() == RunPhase::InFlight(lease),
            final(self).spec_phase() is Finished,
            final(self).spec_attempt() == old(self).spec_attempt(),
            final(self).spec_started_ms() == old(self).spec_started_ms(),
    {
        let mut phase = RunPhase::Finished;
        std::mem::swap(&mut self.phase, &mut phase);
        match phase {
            RunPhase::InFlight(lease) => lease,
            _ => vstd::pervasive::unreached(),
        }
    }

    /// The upstream call succeeded: the lease goes back, the breaker hears of
    /// the success, and the request is counted as successful.
    pub fn on_success(
        &mut self,
        core: &mut ResilienceCore,
        latency_ms: u64,
        input_tokens: u64,
        output_tokens: u64,
    ) -> (action: Action)
        requires
            old(self).spec_phase() is InFlight,
            old(core).pool.spec_stats().active_clients > 0,
            old(core).metrics.has_room(
                MetricEvent::Success { latency_ms, input_tokens, output_tokens },
            ),
        ensures
            action is Succeed,
            final(self).spec_phase() is Finished,
            final(self).spec_attempt() == old(self).spec_attempt(),
            final(self).spec_started_ms() == old(self).spec_started_ms(),
            final(core).pool.spec_stats() == old(core).pool.spec_stats().after_release(),
            final(core).pool.spec_config() == old(core).pool.spec_config(),
            final(core).pool.spec_closed() == old(core).pool.spec_closed(),
            final(core).breaker@ == old(core).breaker@.after_success(),
            final(core).breaker.spec_started() == old(core).breaker.spec_started(),
            final(core).metrics@ == old(core).metrics@.step(
                MetricEvent::Success { latency_ms, input_tokens, output_tokens },
            ),
            final(core).metrics@.total_requests == old(core).metrics@.total_requests,
            final(core).retry == old(core).retry,
    {
        let lease = self.take_lease();
        core.pool.release_client(lease);
        core.breaker.record_success();
        core.metrics.complete_success(latency_ms, input_tokens, output_tokens);
        Action::Succeed
    }

    /// The upstream call failed with `error`: the lease goes back, the
    /// breaker hears of the failure, and the retry policy of the error's
    /// category decides between another attempt after a delay and the end of
    /// the request.
    pub fn on_failure(
        &mut self,
        core: &mut ResilienceCore,
        error: BedrockError,
        now_ms: u64,
        sample: u64,
    ) -> (action: Action)
        requires
            old(self).spec_phase() is InFlight,
            old(core).pool.spec_stats().active_clients > 0,
            old(core).metrics.has_room(
                MetricEvent::Failure {
                    latency_ms: elapsed_between(old(self).spec_started_ms(), now_ms),
                },
            ),
        ensures
            final(self).spec_attempt() == old(self).spec_attempt(),
            final(self).spec_started_ms() == old(self).spec_started_ms(),
            final(core).pool.spec_stats() == old(core).pool.spec_stats().after_release(),
            final(core).pool.spec_config() == old(core).pool.spec_config(),
            final(core).pool.spec_closed() == old(core).pool.spec_closed(),
            final(core).breaker@ == old(core).breaker@.after_failure(now_ms as nat),
            final(core).breaker.spec_started() == old(core).breaker.spec_started(),
            final(core).metrics@.total_requests == old(core).metrics@.total_requests,
            final(core).retry == old(core).retry,
            match RetryExecutor::decision(
                old(core).retry.spec_strategy(),
                error.spec_category(),
                old(self).spec_attempt(),
                elapsed_between(old(self).spec_started_ms(), now_ms) as nat,
                sample as nat,
            ) {
                RetryDecision::RetryAfter(delay_ms) => {
                    &&& action == Action::Sleep { delay_ms }
                    &&& final(self).spec_phase() is BackingOff
                    &&& final(core).metrics == old(core).metrics
                },
                RetryDecision::GiveUp => {
                    &&& action == Action::Fail(RequestFailure::giving_up_on(error))
                    &&& final(self).spec_phase() is Finished
                    &&& final(core).metrics@ == old(core).metrics@.step(
                        MetricEvent::Failure {
                            latency_ms: elapsed_between(old(self).spec_started_ms(), now_ms),
                        },
                    )
                },
            },
    {
        let lease = self.take_lease();
        core.pool.release_client(lease);
        core.breaker.record_failure_at(now_ms);
        self.after_failure(core, error, now_ms, sample)
    }

    /// Whether `abandon` may be called: the request is not over, a lease in
    /// hand is one of this pool, and the counters have room for the failure.
    pub fn ready_to_abandon(&self, core: &ResilienceCore, now_ms: u64) -> (b: bool)
        ensures
            b == (!(self.spec_phase() is Finished) && (self.spec_phase() is InFlight
                ==> core.pool.spec_stats().active_clients > 0) && core.metrics.has_room(
                MetricEvent::Failure {
                    latency_ms: elapsed_between(self.spec_started_ms(), now_ms),
                },
            )),
    {
        let failure = MetricEvent::Failure { latency_ms: self.elapsed(now_ms) };
        let room = core.metrics.has_room_for(&failure);
        match self.phase {
            RunPhase::Finished => false,
            RunPhase::InFlight(_) => core.pool.stats().active_clients > 0 && room,
            _ => room,
        }
    }

    /// The caller gives the request up before it is over, because it was
    /// cancelled or would wait no longer: a lease in hand goes back and the
    /// request is counted as failed. The breaker hears nothing of it, for
    /// the upstream has not failed.
    pub fn abandon(&mut self, core: &mut ResilienceCore, now_ms: u64)
        requires
            !(old(self).spec_phase() is Finished),
            old(self).spec_phase() is InFlight ==> old(core).pool.spec_stats().active_clients > 0,
            old(core).metrics.has_room(
                MetricEvent::Failure {
                    latency_ms: elapsed_between(old(self).spec_started_ms(), now_ms),
                },
            ),
        ensures
            final(self).spec_phase() is Finished,
            final(self).spec_attempt() == old(self).spec_attempt(),
            final(self).spec_started_ms() == old(self).spec_started_ms(),
            final(core).pool.spec_stats() == if old(self).spec_phase() is InFlight {
                old(core).pool.spec_stats().after_release()
            } else {
                old(core).pool.spec_stats()
            },
            final(core).pool.spec_config() == old(core).pool.spec_config(),
            final(core).pool.spec_closed() == old(core).pool.spec_closed(),
            final(core).breaker == old(core).breaker,
            final(core).retry == old(core).retry,
            final(core).metrics@ == old(core).metrics@.step(
                MetricEvent::Failure {
                    latency_ms: elapsed_between(old(self).spec_started_ms(), now_ms),
                },
            ),
            final(core).metrics@.total_requests == old(core).metrics@.total_requests,
    {
        let latency = self.elapsed(now_ms);
        let in_flight = match self.phase {
            RunPhase::InFlight(_) => true,
            _ => false,
        };
        if in_flight {
            let lease = self.take_lease();
            core.pool.release_client(lease);
        } else {
            self.phase = RunPhase::Finished;
        }
        core.metrics.complete_failure(latency);
    }

    /// The caller has slept: the next attempt begins, and it needs a lease.
    pub fn woke(&mut self)
        requires
            old(self).spec_phase() is BackingOff,
            old(self).spec_attempt() < usize::MAX,
        ensures
            final(self).spec_phase() is WaitingForLease,
            final(self).spec_attempt() == old(self).spec_attempt() + 1,
            final(self).spec_started_ms() == old(self).spec_started_ms(),
    {
        self.attempt = self.attempt + 1;
        self.phase = RunPhase::WaitingForLease;
    }
}

} // verus!
