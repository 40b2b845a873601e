use universal_bot::bedrock::error::{BedrockError, ErrorCategory};
use universal_bot::bedrock::retry::{
    draw_jitter_sample, CircuitBreaker, RetryDecision, RetryExecutor, RetryPolicy, RetryStrategy,
    JITTER_STEPS,
};

#[test]
fn test_retry_policy_creation() {
    let policy = RetryPolicy::default();
    assert_eq!(policy.max_retries, 5);
    assert!(policy.jitter);

    let conservative = RetryPolicy::conservative();
    assert_eq!(conservative.max_retries, 3);

    let aggressive = RetryPolicy::aggressive();
    assert_eq!(aggressive.max_retries, 10);

    let no_retry = RetryPolicy::no_retry();
    assert_eq!(no_retry.max_retries, 0);
}

#[test]
fn test_retry_strategy() {
    let strategy = RetryStrategy::new();

    let rate_limit_error = BedrockError::RateLimited("test".to_string());
    let policy = strategy.policy_for_error(&rate_limit_error);
    assert_eq!(policy.max_retries, 3); // Conservative policy

    let auth_error = BedrockError::Authentication("test".to_string());
    assert!(!strategy.should_retry(&auth_error, 0));
}

#[test]
fn test_circuit_breaker() {
    let mut breaker = CircuitBreaker::new(3, 2, 10_000);

    // Initially closed
    assert!(breaker.can_execute());
    assert_eq!(breaker.state(), "closed");

    // Record failures to open the circuit
    breaker.record_failure();
    breaker.record_failure();
    breaker.record_failure();

    assert_eq!(breaker.state(), "open");
    assert!(!breaker.can_execute());
}

#[test]
fn policies_hold_the_tabled_numbers() {
    let d = RetryPolicy::default();
    assert_eq!(
        (d.initial_interval_ms, d.max_interval_ms, d.max_elapsed_time_ms, d.multiplier_permille),
        (500, 30_000, 300_000, 2000)
    );
    let c = RetryPolicy::conservative();
    assert_eq!(
        (c.initial_interval_ms, c.max_interval_ms, c.max_elapsed_time_ms, c.multiplier_permille),
        (1000, 60_000, 600_000, 3000)
    );
    let a = RetryPolicy::aggressive();
    assert_eq!(
        (a.initial_interval_ms, a.max_interval_ms, a.max_elapsed_time_ms, a.multiplier_permille),
        (100, 10_000, 120_000, 1500)
    );
    let n = RetryPolicy::no_retry();
    assert_eq!(
        (n.initial_interval_ms, n.max_interval_ms, n.max_elapsed_time_ms, n.multiplier_permille),
        (0, 0, 0, 1000)
    );
    assert!(!n.jitter);
    assert!(d.is_valid() && c.is_valid() && a.is_valid() && n.is_valid());
    let bad = RetryPolicy { initial_interval_ms: 10, max_interval_ms: 5, ..d };
    assert!(!bad.is_valid());
    let shrinking = RetryPolicy { multiplier_permille: 999, ..d };
    assert!(!shrinking.is_valid());
}

#[test]
fn strategy_maps_categories_to_policies() {
    let strategy = RetryStrategy::new();
    assert_eq!(*strategy.policy_for(ErrorCategory::RateLimit), RetryPolicy::conservative());
    assert_eq!(*strategy.policy_for(ErrorCategory::Network), RetryPolicy::aggressive());
    assert_eq!(*strategy.policy_for(ErrorCategory::Server), RetryPolicy::default());
    assert_eq!(*strategy.policy_for(ErrorCategory::Resource), RetryPolicy::conservative());
    for c in [
        ErrorCategory::Client,
        ErrorCategory::Authentication,
        ErrorCategory::Authorization,
        ErrorCategory::Configuration,
        ErrorCategory::Content,
    ] {
        assert_eq!(*strategy.policy_for(c), RetryPolicy::no_retry());
    }
    assert_eq!(*strategy.policy_for(ErrorCategory::Internal), RetryPolicy::default());
}

#[test]
fn no_retry_categories_are_never_retried() {
    let strategy = RetryStrategy::new();
    let errors = [
        BedrockError::InvalidInput("x".into()),
        BedrockError::Authentication("x".into()),
        BedrockError::Authorization("x".into()),
        BedrockError::Configuration("x".into()),
        BedrockError::ContentFiltered("x".into()),
    ];
    for e in errors.iter() {
        for attempt in 0..4 {
            assert!(!strategy.should_retry(e, attempt));
        }
    }
    // A retryable category under a no-retry policy is not retried either.
    let mut custom = RetryStrategy::new();
    custom.set_policy(ErrorCategory::Server, RetryPolicy::no_retry());
    assert!(ErrorCategory::Server.is_retryable());
    assert!(!custom.should_retry(&BedrockError::ServiceError("x".into()), 0));
}

#[test]
fn should_retry_counts_retries_from_zero() {
    let strategy = RetryStrategy::new();
    let e = BedrockError::RateLimited("x".into());
    // Three retries: attempts 0, 1, 2 may be retried, attempt 3 may not.
    assert!(strategy.should_retry(&e, 0));
    assert!(strategy.should_retry(&e, 1));
    assert!(strategy.should_retry(&e, 2));
    assert!(!strategy.should_retry(&e, 3));
    assert!(!strategy.should_retry(&e, 4));
    // The category decides, not the kind: an invalid response is a server failure.
    assert!(strategy.should_retry(&BedrockError::InvalidResponse("x".into()), 0));
}

#[test]
fn delays_follow_the_formula() {
    let p = RetryPolicy { jitter: false, ..RetryPolicy::default() };
    assert_eq!(p.delay_for(0, 0), 500);
    assert_eq!(p.delay_for(1, 0), 1000);
    assert_eq!(p.delay_for(2, 0), 2000);
    assert_eq!(p.delay_for(3, 0), 4000);
    assert_eq!(p.delay_for(5, 0), 16_000);
    assert_eq!(p.delay_for(6, 0), 30_000);
    assert_eq!(p.delay_for(60, 0), 30_000);
    let a = RetryPolicy { jitter: false, ..RetryPolicy::aggressive() };
    assert_eq!(a.delay_for(1, 0), 150);
    assert_eq!(a.delay_for(2, 0), 225);
    assert_eq!(a.delay_for(3, 0), 337);
    assert_eq!(a.backoff_for(3), 337);
    // The product is rounded down once, at the end: 100 * 1.5^4 is 506.25.
    assert_eq!(a.backoff_for(4), 506);
    assert_eq!(a.delay_for(4, 0), 506);
    assert_eq!(a.backoff_for(5), 759);
    assert_eq!(a.backoff_for(11), 8649);
    assert_eq!(a.backoff_for(12), 10_000);
    assert_eq!(a.backoff_for(100_000), 10_000);
    // A multiplier just above one grows slowly and still reaches the cap.
    let slow = RetryPolicy {
        initial_interval_ms: 1000,
        max_interval_ms: 2000,
        multiplier_permille: 1001,
        ..a
    };
    assert_eq!(slow.backoff_for(1), 1001);
    assert_eq!(slow.backoff_for(2), 1002);
    assert_eq!(slow.backoff_for(3), 1003);
    assert_eq!(slow.backoff_for(693), 1999);
    assert_eq!(slow.backoff_for(694), 2000);
    assert_eq!(slow.backoff_for(1_000_000), 2000);
    // A multiplier of one never grows; one below one dies away.
    let flat = RetryPolicy { multiplier_permille: 1000, ..slow };
    assert_eq!(flat.backoff_for(1_000_000_000), 1000);
    let fading = RetryPolicy { multiplier_permille: 500, ..slow };
    assert_eq!(fading.backoff_for(0), 1000);
    assert_eq!(fading.backoff_for(1), 500);
    assert_eq!(fading.backoff_for(3), 125);
    assert_eq!(fading.backoff_for(4), 62);
    assert_eq!(fading.backoff_for(9), 1);
    assert_eq!(fading.backoff_for(10), 0);
    assert_eq!(fading.backoff_for(1_000_000_000), 0);
    // Nothing grows out of nothing, however long it is multiplied.
    let nothing = RetryPolicy { initial_interval_ms: 0, multiplier_permille: 5000, ..slow };
    assert_eq!(nothing.backoff_for(1), 0);
    assert_eq!(nothing.backoff_for(1_000_000_000), 0);
    // The first interval may lie above the cap: only attempt zero waits it.
    let capped = RetryPolicy { initial_interval_ms: 5000, ..flat };
    assert_eq!(capped.backoff_for(0), 5000);
    assert_eq!(capped.backoff_for(1), 2000);
    let j = RetryPolicy::default();
    // Attempt zero waits the initial interval, without jitter.
    assert_eq!(j.delay_for(0, 999), 500);
    assert_eq!(j.delay_for(1, 0), 1000);
    assert_eq!(j.delay_for(1, 500), 1050);
    assert_eq!(j.delay_for(1, 999), 1099);
    assert_eq!(j.delay_for(10, 999), 30_000 + 30_000 * 999 / 10_000);
}

#[test]
fn delays_never_shrink_and_stay_under_the_ceiling() {
    for policy in [RetryPolicy::default(), RetryPolicy::conservative(), RetryPolicy::aggressive()] {
        for sample in [0u64, 1, 500, 999] {
            let mut last = 0u64;
            for attempt in 0..40usize {
                let d = policy.delay_for(attempt, sample);
                assert!(d >= last);
                assert!(d * 10 <= policy.max_interval_ms * 11);
                last = d;
            }
        }
    }
}

#[test]
fn drawn_delays_lie_between_the_extremes() {
    let strategy = RetryStrategy::new();
    let e = BedrockError::ServiceError("x".into());
    for attempt in 0..8usize {
        let low = strategy.retry_delay_with(&e, attempt, 0);
        let high = strategy.retry_delay_with(&e, attempt, JITTER_STEPS - 1);
        for _ in 0..20 {
            let d = strategy.retry_delay(&e, attempt);
            assert!(low <= d && d <= high);
        }
    }
    for _ in 0..50 {
        assert!(draw_jitter_sample() < JITTER_STEPS);
    }
}

#[test]
fn set_policy_overrides_one_category() {
    let mut strategy = RetryStrategy::default();
    let custom = RetryPolicy {
        initial_interval_ms: 7,
        max_interval_ms: 70,
        max_elapsed_time_ms: 700,
        multiplier_permille: 1000,
        max_retries: 1,
        jitter: false,
    };
    strategy.set_policy(ErrorCategory::Internal, custom);
    assert_eq!(*strategy.policy_for(ErrorCategory::Internal), custom);
    assert_eq!(*strategy.policy_for(ErrorCategory::Server), RetryPolicy::default());
    assert_eq!(strategy.retry_delay(&BedrockError::Internal("x".into()), 3), 7);
}

#[test]
fn executor_gives_up_on_count_and_on_time() {
    let executor = RetryExecutor::new(RetryStrategy::new());
    let e = BedrockError::ServiceError("temporary error".into());
    assert_eq!(executor.decide_with(&e, 0, 0, 0), RetryDecision::RetryAfter(500));
    assert_eq!(executor.decide_with(&e, 1, 0, 0), RetryDecision::RetryAfter(1000));
    assert_eq!(executor.decide_with(&e, 4, 0, 0), RetryDecision::RetryAfter(8000));
    assert_eq!(executor.decide_with(&e, 5, 0, 0), RetryDecision::GiveUp);
    // The time budget of five minutes: the wait must still fit.
    assert_eq!(executor.decide_with(&e, 1, 299_000, 0), RetryDecision::RetryAfter(1000));
    assert_eq!(executor.decide_with(&e, 1, 299_001, 0), RetryDecision::GiveUp);
    let auth = BedrockError::Authentication("x".into());
    assert_eq!(executor.decide_with(&auth, 0, 0, 0), RetryDecision::GiveUp);
    assert!(matches!(executor.decide(&e, 0, 0), RetryDecision::RetryAfter(500)));
    assert_eq!(
        *executor.strategy().policy_for(ErrorCategory::Network),
        RetryPolicy::aggressive()
    );
}

#[test]
fn breaker_cycles_through_its_states() {
    let mut b = CircuitBreaker::new(2, 2, 1000);
    assert!(b.can_execute_at(0));
    b.record_failure_at(10);
    assert_eq!(b.state(), "closed");
    // A success resets the count of failures.
    b.record_success();
    b.record_failure_at(20);
    assert_eq!(b.state(), "closed");
    b.record_failure_at(30);
    assert_eq!(b.state(), "open");
    assert_eq!(b.failure_count(), 2);
    // Rejected until the timeout has passed since the last failure.
    assert!(!b.can_execute_at(30));
    assert!(!b.can_execute_at(1029));
    assert_eq!(b.state(), "open");
    // Exactly one question moves it to half-open.
    assert!(b.can_execute_at(1030));
    assert_eq!(b.state(), "half-open");
    assert!(b.can_execute_at(1031));
    assert_eq!(b.state(), "half-open");
    // One success is not enough, two close it.
    b.record_success();
    assert_eq!(b.state(), "half-open");
    b.record_success();
    assert_eq!(b.state(), "closed");
    assert_eq!(b.failure_count(), 0);
    // Open again, probe, and fail while half-open.
    b.record_failure_at(2000);
    b.record_failure_at(2001);
    assert_eq!(b.state(), "open");
    assert!(b.can_execute_at(3001));
    assert_eq!(b.state(), "half-open");
    b.record_failure_at(3002);
    assert_eq!(b.state(), "open");
    assert!(!b.can_execute_at(3003));
    // While open, a success changes nothing.
    b.record_success();
    assert_eq!(b.state(), "open");
    let copy = b.clone();
    assert_eq!(copy.state(), "open");
    assert_eq!(copy.failure_count(), b.failure_count());
}

#[test]
fn breaker_with_zero_timeout_probes_at_once() {
    let mut b = CircuitBreaker::new(1, 1, 0);
    b.record_failure();
    assert_eq!(b.state(), "open");
    assert!(b.can_execute());
    assert_eq!(b.state(), "half-open");
    b.record_success();
    assert_eq!(b.state(), "closed");
    let _ = b.now_ms();
}

#[test]
fn test_retry_executor() {
    let strategy = RetryStrategy::new();
    let executor = RetryExecutor::new(strategy);

    let mut call_count = 0;
    let mut attempt = 0;
    let result = loop {
        call_count += 1;
        let outcome: Result<&str, BedrockError> = if call_count < 3 {
            Err(BedrockError::ServiceError("temporary error".to_string()))
        } else {
            Ok("success")
        };
        match outcome {
            Ok(value) => break Ok(value),
            Err(error) => match executor.decide(&error, attempt, 0) {
                RetryDecision::RetryAfter(_) => attempt += 1,
                RetryDecision::GiveUp => break Err(error),
            },
        }
    };

    assert!(result.is_ok());
    assert_eq!(call_count, 3);
}
