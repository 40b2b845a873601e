//! Retry policies chosen by error category, backoff delays, the decision to
//! retry, and a circuit breaker that rejects fast while the upstream is down.

use vstd::prelude::*;
use vstd::arithmetic::power::{pow, lemma_pow_positive, lemma_pow_distributes};
use vstd::arithmetic::div_mod::{
    lemma_basic_div, lemma_div_is_ordered, lemma_div_multiples_vanish, lemma_div_pos_is_pos,
    lemma_div_multiples_vanish_quotient, lemma_fundamental_div_mod_converse,
};
use std::collections::HashMap;
use crate::bedrock::config::BedrockConfig;
use crate::bedrock::error::{BedrockError, ErrorCategory};
use crate::system::{random_below, millis_since};

verus! {

broadcast use vstd::std_specs::hash::group_hash_axioms;

/// The backoff multiplier is a fixed-point number with this many units to one.
pub const MULTIPLIER_UNIT: u64 = 1000;

/// A jitter sample lies in `0..JITTER_STEPS`; the largest stands for just
/// under a tenth of the delay.
pub const JITTER_STEPS: u64 = 1000;

/// Retry policy configuration. Durations are in milliseconds; the multiplier is
/// in thousandths, so `2000` doubles the delay at every attempt.
#[derive(Debug, Clone, Copy, PartialEq, Eq, Structural)]
pub struct RetryPolicy {
    /// Initial retry interval
    pub initial_interval_ms: u64,
    /// Maximum retry interval
    pub max_interval_ms: u64,
    /// Maximum total retry time
    pub max_elapsed_time_ms: u64,
    /// Backoff multiplier, in thousandths
    pub multiplier_permille: u64,
    /// Maximum number of retries
    pub max_retries: usize,
    /// Jitter to add to retry intervals
    pub jitter: bool,
}

impl RetryPolicy {
    /// A policy is well formed when its first delay does not exceed its cap and
    /// its multiplier is at least one.
    pub open spec fn wf(self) -> bool {
        self.initial_interval_ms <= self.max_interval_ms && self.multiplier_permille
            >= MULTIPLIER_UNIT
    }

    /// The policy that a strategy falls back on.
    pub open spec fn spec_default() -> RetryPolicy {
        RetryPolicy {
            initial_interval_ms: 500,
            max_interval_ms: 30_000,
            max_elapsed_time_ms: 300_000,
            multiplier_permille: 2000,
            max_retries: 5,
            jitter: true,
        }
    }

    /// Few, widely spaced retries.
    pub open spec fn spec_conservative() -> RetryPolicy {
        RetryPolicy {
            initial_interval_ms: 1000,
            max_interval_ms: 60_000,
            max_elapsed_time_ms: 600_000,
            multiplier_permille: 3000,
            max_retries: 3,
            jitter: true,
        }
    }

    /// Many, closely spaced retries.
    pub open spec fn spec_aggressive() -> RetryPolicy {
        RetryPolicy {
            initial_interval_ms: 100,
            max_interval_ms: 10_000,
            max_elapsed_time_ms: 120_000,
            multiplier_permille: 1500,
            max_retries: 10,
            jitter: true,
        }
    }

    /// No retry at all.
    pub open spec fn spec_no_retry() -> RetryPolicy {
        RetryPolicy {
            initial_interval_ms: 0,
            max_interval_ms: 0,
            max_elapsed_time_ms: 0,
            multiplier_permille: 1000,
            max_retries: 0,
            jitter: false,
        }
    }

    /// The initial interval times the multiplier to the power of `attempt`,
    /// rounded down once to a whole millisecond.
    pub open spec fn grown(self, attempt: nat) -> int {
        self.initial_interval_ms * pow(self.multiplier_permille as int, attempt) / pow(
            MULTIPLIER_UNIT as int,
            attempt,
        )
    }

    /// The delay before jitter: the initial interval at attempt zero; after
    /// that the initial interval times the multiplier to the power of the
    /// attempt, rounded down once and held at the cap.
    pub open spec fn backoff(self, attempt: nat) -> nat {
        if attempt == 0 {
            self.initial_interval_ms as nat
        } else if self.grown(attempt) > self.max_interval_ms {
            self.max_interval_ms as nat
        } else {
            self.grown(attempt) as nat
        }
    }

    /// A delay stretched by `sample` ten-thousandths of itself, held at the
    /// largest representable duration.
    pub open spec fn jittered(delay: nat, sample: nat) -> nat {
        let stretched = delay + delay * sample / (10 * JITTER_STEPS as nat);
        if stretched > u64::MAX {
            u64::MAX as nat
        } else {
            stretched
        }
    }

    /// The delay before retry number `attempt`, counted from zero, for a given
    /// jitter sample. Attempt zero waits the initial interval, without jitter.
    pub open spec fn delay(self, attempt: nat, sample: nat) -> nat {
        if attempt == 0 {
            self.initial_interval_ms as nat
        } else if self.jitter {
            Self::jittered(self.backoff(attempt), sample)
        } else {
            self.backoff(attempt)
        }
    }

    /// Create a conservative retry policy
    pub fn conservative() -> (p: Self)
        ensures
            p == Self::spec_conservative(),
            p.wf(),
    {
        RetryPolicy {
            initial_interval_ms: 1000,
            max_interval_ms: 60_000,
            max_elapsed_time_ms: 600_000,
            multiplier_permille: 3000,
            max_retries: 3,
            jitter: true,
        }
    }

    /// Create an aggressive retry policy
    pub fn aggressive() -> (p: Self)
        ensures
            p == Self::spec_aggressive(),
            p.wf(),
    {
        RetryPolicy {
            initial_interval_ms: 100,
            max_interval_ms: 10_000,
            max_elapsed_time_ms: 120_000,
            multiplier_permille: 1500,
            max_retries: 10,
            jitter: true,
        }
    }

    /// Create a no-retry policy
    pub fn no_retry() -> (p: Self)
        ensures
            p == Self::spec_no_retry(),
            p.wf(),
            p.max_retries == 0,
    {
        RetryPolicy {
            initial_interval_ms: 0,
            max_interval_ms: 0,
            max_elapsed_time_ms: 0,
            multiplier_permille: 1000,
            max_retries: 0,
            jitter: false,
        }
    }

    /// Whether the policy is well formed.
    pub fn is_valid(&self) -> (ok: bool)
        ensures
            ok == self.wf(),
    {
        self.initial_interval_ms <= self.max_interval_ms && self.multiplier_permille
            >= MULTIPLIER_UNIT
    }

    /// The delay before jitter for the given attempt. The product is carried
    /// exactly, as a whole part and a fraction in base-1000 digits, until it
    /// reaches the cap or the last attempt.
    pub fn backoff_for(&self, attempt: usize) -> (d: u64)
        ensures
            d == self.backoff(attempt as nat),
    {
        let first = self.initial_interval_ms;
        let m = self.multiplier_permille;
        let cap = self.max_interval_ms;
        if attempt == 0 {
            return first;
        }
        if first == 0 {
            proof {
                lemma_pow_positive(1000, attempt as nat);
                assert(first * pow(m as int, attempt as nat) == 0) by (nonlinear_arith)
                    requires
                        first == 0,
                ;
                lemma_basic_div(0, pow(1000, attempt as nat));
            }
            return 0;
        }
        if m == 1000 {
            proof {
                let unit = pow(1000, attempt as nat);
                lemma_pow_positive(1000, attempt as nat);
                lemma_div_multiples_vanish(first as int, unit);
                assert(first * unit == unit * first) by (nonlinear_arith);
            }
            return if first > cap {
                cap
            } else {
                first
            };
        }
        let mut whole: u64 = first;
        let mut fraction: Vec<u64> = Vec::new();
        let mut i: usize = 0;
        proof {
            reveal(pow);
            assert(first * pow(m as int, 0) == whole * pow(1000, 0) + digits_value(fraction@))
                by (nonlinear_arith)
                requires
                    pow(m as int, 0) == 1,
                    pow(1000, 0) == 1,
                    digits_value(fraction@) == 0,
                    first == whole,
            ;
        }
        while i < attempt
            invariant
                i <= attempt,
                first == self.initial_interval_ms,
                m == self.multiplier_permille,
                cap == self.max_interval_ms,
                m != 1000,
                fraction@.len() == i,
                is_fraction(fraction@),
                first * pow(m as int, i as nat) == whole * pow(1000, i as nat) + digits_value(
                    fraction@,
                ),
            decreases attempt - i,
        {
            let (scaled, carry) = scale_fraction(&fraction, m);
            assert(whole as u128 * m as u128 + carry as u128 <= 0xFFFF_FFFF_FFFF_FFFF
                * 0xFFFF_FFFF_FFFF_FFFF + 0xFFFF_FFFF_FFFF_FFFF) by (nonlinear_arith)
                requires
                    whole <= 0xFFFF_FFFF_FFFF_FFFF,
                    m <= 0xFFFF_FFFF_FFFF_FFFF,
                    carry <= 0xFFFF_FFFF_FFFF_FFFF,
            ;
            let total: u128 = whole as u128 * m as u128 + carry as u128;
            let next: u128 = total / 1000;
            let digit: u64 = (total % 1000) as u64;
            let mut longer = scaled;
            longer.push(digit);
            proof {
                let unit = pow(1000, i as nat);
                let wider = pow(1000, (i + 1) as nat);
                reveal(pow);
                assert(wider == 1000 * unit);
                assert(pow(m as int, (i + 1) as nat) == m * pow(m as int, i as nat));
                assert(longer@.drop_last() =~= scaled@);
                assert(digits_value(longer@) == digits_value(scaled@) + digit * unit);
                assert(first * pow(m as int, (i + 1) as nat) == next * wider + digits_value(
                    longer@,
                )) by (nonlinear_arith)
                    requires
                        pow(m as int, (i + 1) as nat) == m * pow(m as int, i as nat),
                        first * pow(m as int, i as nat) == whole * unit + digits_value(fraction@),
                        digits_value(scaled@) + carry * unit == m * digits_value(fraction@),
                        total == whole * m + carry,
                        total == 1000 * next + digit,
                        wider == 1000 * unit,
                        digits_value(longer@) == digits_value(scaled@) + digit * unit,
                ;
                assert(0 <= digits_value(longer@) < wider) by (nonlinear_arith)
                    requires
                        0 <= digits_value(scaled@) < unit,
                        digits_value(longer@) == digits_value(scaled@) + digit * unit,
                        digit <= 999,
                        wider == 1000 * unit,
                ;
                assert(is_fraction(longer@));
            }
            if m > 1000 && next >= cap as u128 {
                proof {
                    let wider = pow(1000, (i + 1) as nat);
                    assert(first * pow(m as int, (i + 1) as nat) >= cap * wider) by (nonlinear_arith)
                        requires
                            first * pow(m as int, (i + 1) as nat) == next * wider + digits_value(
                                longer@,
                            ),
                            0 <= digits_value(longer@) < wider,
                            next >= cap,
                    ;
                    lemma_growth_stays_above(
                        first as nat,
                        m as nat,
                        cap as nat,
                        (i + 1) as nat,
                        attempt as nat,
                    );
                    let unit = pow(1000, attempt as nat);
                    lemma_pow_positive(1000, attempt as nat);
                    lemma_div_is_ordered(cap * unit, first * pow(m as int, attempt as nat), unit);
                    lemma_div_multiples_vanish(cap as int, unit);
                    assert(cap * unit == unit * cap) by (nonlinear_arith);
                }
                return cap;
            }
            if m < 1000 && next == 0 {
                proof {
                    let wider = pow(1000, (i + 1) as nat);
                    assert(0 <= first * pow(m as int, (i + 1) as nat) < wider) by (nonlinear_arith)
                        requires
                            first * pow(m as int, (i + 1) as nat) == next * wider + digits_value(
                                longer@,
                            ),
                            0 <= digits_value(longer@) < wider,
                            next == 0,
                    ;
                    lemma_decay_stays_below(first as nat, m as nat, (i + 1) as nat, attempt as nat);
                    lemma_basic_div(
                        first * pow(m as int, attempt as nat),
                        pow(1000, attempt as nat),
                    );
                }
                return 0;
            }
            proof {
                if m < 1000 {
                    assert(next <= whole) by (nonlinear_arith)
                        requires
                            total == whole * m + carry,
                            total == 1000 * next + digit,
                            carry <= m,
                            m < 1000,
                            digit >= 0,
                    ;
                }
            }
            whole = next as u64;
            fraction = longer;
            i = i + 1;
        }
        proof {
            lemma_fundamental_div_mod_converse(
                first * pow(m as int, attempt as nat),
                pow(1000, attempt as nat),
                whole as int,
                digits_value(fraction@),
            );
        }
        if whole > cap {
            cap
        } else {
            whole
        }
    }

    /// The delay before retry number `attempt` for the given jitter sample.
    pub fn delay_for(&self, attempt: usize, sample: u64) -> (d: u64)
        ensures
            d == self.delay(attempt as nat, sample as nat),
    {
        if attempt == 0 {
            return self.initial_interval_ms;
        }
        let base = self.backoff_for(attempt);
        if !self.jitter {
            return base;
        }
        assert((base as u128) * (sample as u128) <= 0xFFFF_FFFF_FFFF_FFFF * 0xFFFF_FFFF_FFFF_FFFF)
            by (nonlinear_arith)
            requires
                base <= 0xFFFF_FFFF_FFFF_FFFF,
                sample <= 0xFFFF_FFFF_FFFF_FFFF,
        ;
        let extra: u128 = (base as u128) * (sample as u128) / 10_000;
        let stretched: u128 = base as u128 + extra;
        if stretched > u64::MAX as u128 {
            u64::MAX
        } else {
            stretched as u64
        }
    }
}

impl Default for RetryPolicy {
    fn default() -> (p: Self)
        ensures
            p == RetryPolicy::spec_default(),
    {
        RetryPolicy {
            initial_interval_ms: 500,
            max_interval_ms: 30_000,
            max_elapsed_time_ms: 300_000,
            multiplier_permille: 2000,
            max_retries: 5,
            jitter: true,
        }
    }
}

/// The number that digits in base 1000 stand for, the lowest digit first.
spec fn digits_value(digits: Seq<u64>) -> int
    decreases digits.len(),
{
    if digits.len() == 0 {
        0
    } else {
        digits_value(digits.drop_last()) + digits.last() * pow(1000, (digits.len() - 1) as nat)
    }
}

/// Digits that stand for a fraction: each is below 1000, and so the number
/// they stand for is below 1000 to the power of their count.
spec fn is_fraction(digits: Seq<u64>) -> bool {
    &&& forall|i: int| 0 <= i < digits.len() ==> #[trigger] digits[i] < 1000
    &&& 0 <= digits_value(digits) < pow(1000, digits.len())
}

/// Multiply a fraction by `m`: the digits of the product's fraction, and what
/// carries over into the whole part.
fn scale_fraction(digits: &Vec<u64>, m: u64) -> (r: (Vec<u64>, u64))
    requires
        is_fraction(digits@),
    ensures
        r.0@.len() == digits@.len(),
        is_fraction(r.0@),
        r.1 <= m,
        digits_value(r.0@) + r.1 * pow(1000, digits@.len()) == m * digits_value(digits@),
{
    let mut out: Vec<u64> = Vec::new();
    let mut carry: u64 = 0;
    let mut i: usize = 0;
    proof {
        reveal(pow);
        assert(digits@.take(0) =~= Seq::<u64>::empty());
        assert(digits_value(out@) + carry * pow(1000, 0) == m * digits_value(digits@.take(0)))
            by (nonlinear_arith)
            requires
                digits_value(out@) == 0,
                carry == 0,
                digits_value(digits@.take(0)) == 0,
        ;
    }
    while i < digits.len()
        invariant
            i <= digits.len(),
            out@.len() == i,
            is_fraction(digits@),
            is_fraction(out@),
            carry <= m,
            digits_value(out@) + carry * pow(1000, i as nat) == m * digits_value(
                digits@.take(i as int),
            ),
        decreases digits.len() - i,
    {
        let digit = digits[i];
        assert(digit as u128 * m as u128 + carry as u128 <= 1000 * 0xFFFF_FFFF_FFFF_FFFF)
            by (nonlinear_arith)
            requires
                digit <= 999,
                m <= 0xFFFF_FFFF_FFFF_FFFF,
                carry <= m,
        ;
        let total: u128 = digit as u128 * m as u128 + carry as u128;
        let low: u64 = (total % 1000) as u64;
        assert(total / 1000 <= m) by (nonlinear_arith)
            requires
                total == digit * m + carry,
                digit <= 999,
                carry <= m,
        ;
        let high: u64 = (total / 1000) as u64;
        proof {
            let unit = pow(1000, i as nat);
            let before = out@;
            let after = out@.push(low);
            let read = digits@.take(i + 1);
            reveal(pow);
            assert(pow(1000, (i + 1) as nat) == 1000 * unit);
            assert(after.drop_last() =~= before);
            assert(digits_value(after) == digits_value(before) + low * unit);
            assert(read.drop_last() =~= digits@.take(i as int));
            assert(digits_value(read) == digits_value(digits@.take(i as int)) + digit * unit);
            assert(digits_value(after) + high * (1000 * unit) == m * digits_value(read))
                by (nonlinear_arith)
                requires
                    digits_value(after) == digits_value(before) + low * unit,
                    digits_value(read) == digits_value(digits@.take(i as int)) + digit * unit,
                    digits_value(before) + carry * unit == m * digits_value(
                        digits@.take(i as int),
                    ),
                    digit * m + carry == 1000 * high + low,
            ;
            assert(0 <= digits_value(after) < 1000 * unit) by (nonlinear_arith)
                requires
                    digits_value(after) == digits_value(before) + low * unit,
                    0 <= digits_value(before) < unit,
                    0 <= low <= 999,
            ;
            assert forall|j: int| 0 <= j < after.len() implies #[trigger] after[j] < 1000 by {
                if j < before.len() {
                    assert(after[j] == before[j]);
                }
            }
        }
        out.push(low);
        carry = high;
        i = i + 1;
    }
    proof {
        assert(digits@.take(i as int) =~= digits@);
    }
    (out, carry)
}

/// With a multiplier of at least one, a product that has reached `floor`
/// stays at or above it at every later attempt.
proof fn lemma_growth_stays_above(first: nat, m: nat, floor: nat, from: nat, to: nat)
    requires
        m >= 1000,
        from <= to,
        first * pow(m as int, from) >= floor * pow(1000, from),
    ensures
        first * pow(m as int, to) >= floor * pow(1000, to),
    decreases to - from,
{
    if from < to {
        let before = (to - 1) as nat;
        lemma_growth_stays_above(first, m, floor, from, before);
        reveal(pow);
        lemma_pow_positive(1000, before);
        assert(first * pow(m as int, to) >= floor * pow(1000, to)) by (nonlinear_arith)
            requires
                pow(m as int, to) == m * pow(m as int, before),
                pow(1000, to) == 1000 * pow(1000, before),
                first * pow(m as int, before) >= floor * pow(1000, before),
                pow(1000, before) > 0,
                m >= 1000,
        ;
    }
}

/// With a multiplier of at most one, a product that has fallen below one
/// stays below it at every later attempt.
proof fn lemma_decay_stays_below(first: nat, m: nat, from: nat, to: nat)
    requires
        m <= 1000,
        from <= to,
        0 <= first * pow(m as int, from) < pow(1000, from),
    ensures
        0 <= first * pow(m as int, to) < pow(1000, to),
    decreases to - from,
{
    if from < to {
        let before = (to - 1) as nat;
        lemma_decay_stays_below(first, m, from, before);
        reveal(pow);
        assert(0 <= first * pow(m as int, to) < pow(1000, to)) by (nonlinear_arith)
            requires
                pow(m as int, to) == m * pow(m as int, before),
                pow(1000, to) == 1000 * pow(1000, before),
                0 <= first * pow(m as int, before) < pow(1000, before),
                0 <= m <= 1000,
        ;
    }
}

/// Under a well-formed policy the delay before jitter never exceeds the cap.
pub proof fn lemma_backoff_capped(p: RetryPolicy, attempt: nat)
    requires
        p.wf(),
    ensures
        p.backoff(attempt) <= p.max_interval_ms,
{
    lemma_grown_is_positive(p, attempt);
}

/// Under a well-formed policy the grown interval is no negative number.
proof fn lemma_grown_is_positive(p: RetryPolicy, attempt: nat)
    requires
        p.wf(),
    ensures
        p.grown(attempt) >= 0,
{
    lemma_pow_positive(p.multiplier_permille as int, attempt);
    lemma_pow_positive(1000, attempt);
    assert(p.initial_interval_ms * pow(p.multiplier_permille as int, attempt) >= 0)
        by (nonlinear_arith)
        requires
            pow(p.multiplier_permille as int, attempt) > 0,
            p.initial_interval_ms >= 0,
    ;
    lemma_div_pos_is_pos(
        p.initial_interval_ms * pow(p.multiplier_permille as int, attempt),
        pow(1000, attempt),
    );
}

/// Under a well-formed policy the delay before jitter never shrinks from one
/// attempt to the next.
pub proof fn lemma_backoff_monotonic(p: RetryPolicy, attempt: nat)
    requires
        p.wf(),
    ensures
        p.backoff(attempt) <= p.backoff(attempt + 1),
{
    let first = p.initial_interval_ms as int;
    let m = p.multiplier_permille as int;
    let product = first * pow(m, attempt);
    let unit = pow(1000, attempt);
    reveal(pow);
    lemma_pow_positive(m, attempt);
    lemma_pow_positive(1000, attempt);
    assert(pow(m, attempt + 1) == m * pow(m, attempt));
    assert(pow(1000, attempt + 1) == 1000 * unit);
    assert(first * pow(m, attempt + 1) >= 1000 * product && product >= 0) by (nonlinear_arith)
        requires
            pow(m, attempt + 1) == m * pow(m, attempt),
            product == first * pow(m, attempt),
            pow(m, attempt) > 0,
            first >= 0,
            m >= 1000,
    ;
    lemma_div_multiples_vanish_quotient(1000, product, unit);
    lemma_div_is_ordered(1000 * product, first * pow(m, attempt + 1), 1000 * unit);
    assert(p.grown(attempt) <= p.grown(attempt + 1));
    if attempt == 0 {
        assert(pow(m, 0) == 1 && pow(1000, 0) == 1);
        assert(product == first) by (nonlinear_arith)
            requires
                product == first * pow(m, attempt),
                pow(m, attempt) == 1,
        ;
        assert(p.grown(0) == first);
    }
}

/// Where the multiplier is a whole number, the delay before jitter is the
/// initial interval times the multiplier to the power of the attempt, held at
/// the cap.
pub proof fn lemma_backoff_is_geometric(p: RetryPolicy, factor: nat, attempt: nat)
    requires
        p.wf(),
        p.multiplier_permille == MULTIPLIER_UNIT * factor,
    ensures
        p.backoff(attempt) == (if p.initial_interval_ms * pow(factor as int, attempt)
            > p.max_interval_ms {
            p.max_interval_ms as int
        } else {
            p.initial_interval_ms * pow(factor as int, attempt)
        }),
{
    let first = p.initial_interval_ms as int;
    let k = factor as int;
    let unit = pow(1000, attempt);
    if attempt == 0 {
        reveal(pow);
        assert(first * pow(k, 0) == first) by (nonlinear_arith)
            requires
                pow(k, 0) == 1,
        ;
    } else {
        lemma_pow_distributes(1000, k, attempt);
        lemma_pow_positive(1000, attempt);
        lemma_div_multiples_vanish(first * pow(k, attempt), unit);
        assert(first * pow(1000 * k, attempt) == unit * (first * pow(k, attempt)))
            by (nonlinear_arith)
            requires
                pow(1000 * k, attempt) == unit * pow(k, attempt),
        ;
        assert(p.grown(attempt) == first * pow(k, attempt));
        lemma_grown_is_positive(p, attempt);
    }
}

/// Jitter never shortens a delay, and a longer delay stays longer under the
/// same sample.
pub proof fn lemma_jitter_monotonic(d1: nat, d2: nat, sample: nat)
    requires
        d1 <= d2,
    ensures
        RetryPolicy::jittered(d1, sample) <= RetryPolicy::jittered(d2, sample),
        d1 <= u64::MAX ==> d1 <= RetryPolicy::jittered(d1, sample),
{
    assert(d1 * sample / 10_000 <= d2 * sample / 10_000) by (nonlinear_arith)
        requires
            d1 <= d2,
    ;
    assert(d1 * sample / 10_000 >= 0) by (nonlinear_arith);
}

/// A sample below `JITTER_STEPS` adds less than a tenth to the delay.
pub proof fn lemma_jitter_ceiling(d: nat, sample: nat)
    requires
        sample < JITTER_STEPS,
    ensures
        10 * RetryPolicy::jittered(d, sample) <= 11 * d,
{
    assert(10 * (d * sample / 10_000) <= d) by (nonlinear_arith)
        requires
            sample < 1000,
    ;
}

/// For a well-formed policy and one jitter sample, the delay never shrinks as
/// the attempts go on.
pub proof fn lemma_delay_monotonic(p: RetryPolicy, attempt: nat, sample: nat)
    requires
        p.wf(),
    ensures
        p.delay(attempt, sample) <= p.delay(attempt + 1, sample),
{
    lemma_backoff_monotonic(p, attempt);
    lemma_backoff_capped(p, attempt);
    lemma_backoff_capped(p, attempt + 1);
    lemma_jitter_monotonic(p.backoff(attempt), p.backoff(attempt + 1), sample);
    lemma_jitter_monotonic(p.backoff(attempt + 1), p.backoff(attempt + 1), sample);
    assert(p.backoff(0) == p.initial_interval_ms);
}

/// For a well-formed policy the delay stays within the cap plus a tenth,
/// whatever the attempt and whatever sample below `JITTER_STEPS` was drawn;
/// without jitter it stays within the cap itself.
pub proof fn lemma_delay_ceiling(p: RetryPolicy, attempt: nat, sample: nat)
    requires
        p.wf(),
        sample < JITTER_STEPS,
    ensures
        10 * p.delay(attempt, sample) <= 11 * p.max_interval_ms,
        !p.jitter ==> p.delay(attempt, sample) <= p.max_interval_ms,
{
    lemma_backoff_capped(p, attempt);
    lemma_jitter_ceiling(p.backoff(attempt), sample);
}

/// Retry strategy for different error types: a policy per category, with a
/// default for the categories that have none of their own.
#[derive(Debug, Clone)]
pub struct RetryStrategy {
    policies: HashMap<u64, RetryPolicy>,
    default_policy: RetryPolicy,
}

impl RetryStrategy {
    /// The policy that the strategy holds for a category: the one set for it,
    /// or the default.
    pub closed spec fn policy_of(&self, category: ErrorCategory) -> RetryPolicy {
        if self.policies@.contains_key(category.index()) {
            self.policies@[category.index()]
        } else {
            self.default_policy
        }
    }

    /// The policy that a new strategy holds for each category.
    pub open spec fn standard_policy(category: ErrorCategory) -> RetryPolicy {
        match category {
            ErrorCategory::RateLimit => RetryPolicy::spec_conservative(),
            ErrorCategory::Network => RetryPolicy::spec_aggressive(),
            ErrorCategory::Server => RetryPolicy::spec_default(),
            ErrorCategory::Resource => RetryPolicy::spec_conservative(),
            ErrorCategory::Client => RetryPolicy::spec_no_retry(),
            ErrorCategory::Authentication => RetryPolicy::spec_no_retry(),
            ErrorCategory::Authorization => RetryPolicy::spec_no_retry(),
            ErrorCategory::Configuration => RetryPolicy::spec_no_retry(),
            ErrorCategory::Content => RetryPolicy::spec_no_retry(),
            ErrorCategory::Internal => RetryPolicy::spec_default(),
        }
    }

    /// Whether another attempt is allowed after `attempt` retries of a failure
    /// of the given category.
    pub open spec fn retry_allowed(&self, category: ErrorCategory, attempt: nat) -> bool {
        attempt < self.policy_of(category).max_retries && category.retryable()
    }

    /// Create a new retry strategy
    pub fn new() -> (s: Self)
        ensures
            forall|c: ErrorCategory| #[trigger] s.policy_of(c) == Self::standard_policy(c),
    {
        let mut policies: HashMap<u64, RetryPolicy> = HashMap::new();
        // Rate limiting gets more conservative retry
        policies.insert(ErrorCategory::RateLimit.key(), RetryPolicy::conservative());
        // Network errors get aggressive retry
        policies.insert(ErrorCategory::Network.key(), RetryPolicy::aggressive());
        // Server errors get default retry
        policies.insert(ErrorCategory::Server.key(), RetryPolicy::default());
        // Resource exhaustion gets conservative retry
        policies.insert(ErrorCategory::Resource.key(), RetryPolicy::conservative());
        // Client errors, auth errors, etc. don't get retried
        policies.insert(ErrorCategory::Client.key(), RetryPolicy::no_retry());
        policies.insert(ErrorCategory::Authentication.key(), RetryPolicy::no_retry());
        policies.insert(ErrorCategory::Authorization.key(), RetryPolicy::no_retry());
        policies.insert(ErrorCategory::Configuration.key(), RetryPolicy::no_retry());
        policies.insert(ErrorCategory::Content.key(), RetryPolicy::no_retry());
        RetryStrategy { policies, default_policy: RetryPolicy::default() }
    }

    /// The policy made of a configuration's retry options: its intervals,
    /// its time budget and its multiplier, with the default number of retries
    /// and with jitter.
    pub open spec fn configured_policy(config: BedrockConfig) -> RetryPolicy {
        RetryPolicy {
            initial_interval_ms: config.retry_initial_interval_ms,
            max_interval_ms: (config.retry_max_interval_seconds * 1000) as u64,
            max_elapsed_time_ms: (config.retry_max_elapsed_seconds * 1000) as u64,
            multiplier_permille: config.retry_multiplier_permille,
            ..RetryPolicy::spec_default()
        }
    }

    /// The strategy of a client with the given configuration: failures of
    /// the server and internal failures are retried by the configured policy,
    /// every other category by the policy of a new strategy.
    pub fn from_config(config: &BedrockConfig) -> (s: Self)
        requires
            config.valid(),
        ensures
            forall|c: ErrorCategory|
                #[trigger] s.policy_of(c) == if c is Server || c is Internal {
                    Self::configured_policy(*config)
                } else {
                    Self::standard_policy(c)
                },
    {
        let policy = RetryPolicy {
            initial_interval_ms: config.retry_initial_interval_ms,
            max_interval_ms: config.retry_max_interval_seconds * 1000,
            max_elapsed_time_ms: config.retry_max_elapsed_seconds * 1000,
            multiplier_permille: config.retry_multiplier_permille,
            max_retries: 5,
            jitter: true,
        };
        let mut s = RetryStrategy::new();
        s.set_policy(ErrorCategory::Server, policy);
        s.set_policy(ErrorCategory::Internal, policy);
        s
    }

    /// Get the retry policy for an error category
    pub fn policy_for(&self, category: ErrorCategory) -> (p: &RetryPolicy)
        ensures
            *p == self.policy_of(category),
    {
        let key = category.key();
        match self.policies.get(&key) {
            Some(p) => p,
            None => &self.default_policy,
        }
    }

    /// Get retry policy for an error
    pub fn policy_for_error(&self, error: &BedrockError) -> (p: &RetryPolicy)
        ensures
            *p == self.policy_of(error.spec_category()),
    {
        self.policy_for(error.category())
    }

    /// Check if an error should be retried. `attempt` counts the retries made
    /// so far, so a policy of three retries allows four attempts in all.
    pub fn should_retry(&self, error: &BedrockError, attempt: usize) -> (r: bool)
        ensures
            r == self.retry_allowed(error.spec_category(), attempt as nat),
    {
        let category = error.category();
        let policy = self.policy_for(category);
        // Don't retry if we've exceeded max retries
        if attempt >= policy.max_retries {
            return false;
        }
        // The category decides whether the failure is transient
        category.is_retryable()
    }

    /// Calculate the retry delay, in milliseconds, for an error, an attempt
    /// number and a jitter sample.
    pub fn retry_delay_with(&self, error: &BedrockError, attempt: usize, sample: u64) -> (d: u64)
        ensures
            d == self.policy_of(error.spec_category()).delay(attempt as nat, sample as nat),
    {
        let policy = self.policy_for_error(error);
        policy.delay_for(attempt, sample)
    }

    /// Calculate the retry delay, in milliseconds, for an error and attempt
    /// number. Where the policy asks for jitter, a sample is drawn at random.
    pub fn retry_delay(&self, error: &BedrockError, attempt: usize) -> (d: u64)
        ensures
            exists|sample: nat|
                sample < JITTER_STEPS && d == #[trigger] self.policy_of(
                    error.spec_category(),
                ).delay(attempt as nat, sample),
    {
        let policy = self.policy_for_error(error);
        let sample: u64 = if attempt > 0 && policy.jitter {
            random_below(JITTER_STEPS)
        } else {
            0
        };
        let d = policy.delay_for(attempt, sample);
        assert(d == self.policy_of(error.spec_category()).delay(attempt as nat, sample as nat));
        d
    }

    /// Set custom policy for an error category
    pub fn set_policy(&mut self, category: ErrorCategory, policy: RetryPolicy)
        ensures
            forall|c: ErrorCategory|
                #[trigger] final(self).policy_of(c) == if c == category {
                    policy
                } else {
                    old(self).policy_of(c)
                },
    {
        self.policies.insert(category.key(), policy);
    }
}

impl Default for RetryStrategy {
    fn default() -> (s: Self)
        ensures
            forall|c: ErrorCategory| #[trigger] s.policy_of(c) == RetryStrategy::standard_policy(c),
    {
        RetryStrategy::new()
    }
}

/// A category whose policy allows no retries is never retried, whatever the
/// category's own default says.
pub proof fn lemma_no_retry_policy_never_retries(
    s: RetryStrategy,
    category: ErrorCategory,
    attempt: nat,
)
    requires
        s.policy_of(category).max_retries == 0,
    ensures
        !s.retry_allowed(category, attempt),
{
}

/// Under the policies that a new strategy holds, a failure of the client,
/// authentication, authorization, configuration or content category is never
/// retried, not even at the first attempt.
pub proof fn lemma_standard_strategy_never_retries_permanent(
    s: RetryStrategy,
    category: ErrorCategory,
    attempt: nat,
)
    requires
        s.policy_of(category) == RetryStrategy::standard_policy(category),
        !category.retryable(),
    ensures
        RetryStrategy::standard_policy(category).max_retries == 0,
        !s.retry_allowed(category, attempt),
{
}

/// Draw a jitter sample at random: a number below `JITTER_STEPS`.
pub fn draw_jitter_sample() -> (sample: u64)
    ensures
        sample < JITTER_STEPS,
{
    random_below(JITTER_STEPS)
}

/// What to do after a failed attempt.
#[derive(Debug, Clone, Copy, PartialEq, Eq, Structural)]
pub enum RetryDecision {
    /// Wait this many milliseconds, then try again.
    RetryAfter(u64),
    /// Stop and hand the failure to the caller.
    GiveUp,
}

/// Retry executor for running operations with retry logic. It decides; the
/// caller performs the attempts and the waits.
pub struct RetryExecutor {
    strategy: RetryStrategy,
}

impl RetryExecutor {
    /// The strategy that the executor decides by.
    pub closed spec fn spec_strategy(&self) -> RetryStrategy {
        self.strategy
    }

    /// The decision after a failure of `category` on retry number `attempt`,
    /// with `elapsed_ms` spent since the first attempt and the given jitter sample:
    /// give up when the policy allows no further retry or when the wait would
    /// run past the policy's time budget.
    pub open spec fn decision(
        strategy: RetryStrategy,
        category: ErrorCategory,
        attempt: nat,
        elapsed_ms: nat,
        sample: nat,
    ) -> RetryDecision {
        let policy = strategy.policy_of(category);
        let delay = policy.delay(attempt, sample);
        if !strategy.retry_allowed(category, attempt) {
            RetryDecision::GiveUp
        } else if elapsed_ms + delay > policy.max_elapsed_time_ms {
            RetryDecision::GiveUp
        } else {
            RetryDecision::RetryAfter(delay as u64)
        }
    }

    /// Create a new retry executor
    pub fn new(strategy: RetryStrategy) -> (e: Self)
        ensures
            e.spec_strategy() == strategy,
    {
        RetryExecutor { strategy }
    }

    /// The strategy in use.
    pub fn strategy(&self) -> (s: &RetryStrategy)
        ensures
            *s == self.spec_strategy(),
    {
        &self.strategy
    }

    /// Decide what follows a failed attempt, for a given jitter sample.
    pub fn decide_with(
        &self,
        error: &BedrockError,
        attempt: usize,
        elapsed_ms: u64,
        sample: u64,
    ) -> (d: RetryDecision)
        ensures
            d == Self::decision(
                self.spec_strategy(),
                error.spec_category(),
                attempt as nat,
                elapsed_ms as nat,
                sample as nat,
            ),
    {
        if !self.strategy.should_retry(error, attempt) {
            return RetryDecision::GiveUp;
        }
        let delay = self.strategy.retry_delay_with(error, attempt, sample);
        let policy = self.strategy.policy_for_error(error);
        // Check if we would exceed the max elapsed time
        if elapsed_ms as u128 + delay as u128 > policy.max_elapsed_time_ms as u128 {
            return RetryDecision::GiveUp;
        }
        RetryDecision::RetryAfter(delay)
    }

    /// Decide what follows a failed attempt. Where the policy asks for jitter,
    /// a sample is drawn at random.
    pub fn decide(&self, error: &BedrockError, attempt: usize, elapsed_ms: u64) -> (d:
        RetryDecision)
        ensures
            exists|sample: nat|
                sample < JITTER_STEPS && d == #[trigger] Self::decision(
                    self.spec_strategy(),
                    error.spec_category(),
                    attempt as nat,
                    elapsed_ms as nat,
                    sample,
                ),
    {
        let sample: u64 = random_below(JITTER_STEPS);
        let d = self.decide_with(error, attempt, elapsed_ms, sample);
        assert(d == Self::decision(
            self.spec_strategy(),
            error.spec_category(),
            attempt as nat,
            elapsed_ms as nat,
            sample as nat,
        ));
        d
    }
}

/// A retry is only ever granted within the policy's retry count and time
/// budget, and the wait it names is the policy's delay.
pub proof fn lemma_retry_granted_within_budget(
    strategy: RetryStrategy,
    category: ErrorCategory,
    attempt: nat,
    elapsed_ms: nat,
    sample: nat,
)
    ensures
        RetryExecutor::decision(strategy, category, attempt, elapsed_ms, sample)
            matches RetryDecision::RetryAfter(delay) ==> {
            &&& attempt < strategy.policy_of(category).max_retries
            &&& category.retryable()
            &&& elapsed_ms + delay <= strategy.policy_of(category).max_elapsed_time_ms
            &&& delay == strategy.policy_of(category).delay(attempt, sample)
        },
{
    let policy = strategy.policy_of(category);
    let delay = policy.delay(attempt, sample);
    if strategy.retry_allowed(category, attempt) && elapsed_ms + delay
        <= policy.max_elapsed_time_ms {
        assert(delay <= u64::MAX);
    }
}

/// The three states of a circuit breaker.
#[derive(Debug, Clone, Copy, PartialEq, Eq, Structural)]
pub enum CircuitBreakerState {
    /// Calls pass; failures are counted.
    Closed,
    /// Calls are rejected until the timeout has passed.
    Open,
    /// Calls pass on probation.
    HalfOpen,
}

impl CircuitBreakerState {
    /// The state's name, as `CircuitBreaker::state` reports it.
    pub open spec fn name(self) -> Seq<char> {
        match self {
            CircuitBreakerState::Closed => "closed"@,
            CircuitBreakerState::Open => "open"@,
            CircuitBreakerState::HalfOpen => "half-open"@,
        }
    }
}

/// A circuit breaker as a mathematical value. Times are milliseconds on the
/// breaker's own clock.
pub struct BreakerView {
    /// The current state
    pub state: CircuitBreakerState,
    /// Failures counted since the count was last reset
    pub failure_count: nat,
    /// Successes counted while half-open
    pub success_count: nat,
    /// Failures that open a closed breaker
    pub failure_threshold: nat,
    /// Successes that close a half-open breaker
    pub success_threshold: nat,
    /// How long an open breaker rejects calls
    pub timeout_ms: nat,
    /// When the last failure was recorded, if any was
    pub last_failure_ms: Option<nat>,
}

impl BreakerView {
    /// Successes are counted only while half-open, and the count stays below
    /// the threshold that would close the breaker.
    pub open spec fn wf(self) -> bool {
        self.success_count == 0 || (self.state is HalfOpen && self.success_count
            < self.success_threshold)
    }

    /// A new breaker: closed, with nothing counted.
    pub open spec fn initial(
        failure_threshold: nat,
        success_threshold: nat,
        timeout_ms: nat,
    ) -> BreakerView {
        BreakerView {
            state: CircuitBreakerState::Closed,
            failure_count: 0,
            success_count: 0,
            failure_threshold,
            success_threshold,
            timeout_ms,
            last_failure_ms: None,
        }
    }

    /// Whether the open period that began with the last failure is over at `now`.
    pub open spec fn timed_out(self, now: nat) -> bool {
        self.last_failure_ms matches Some(t) && now >= t + self.timeout_ms
    }

    /// Whether a call is let through at `now`.
    pub open spec fn allows(self, now: nat) -> bool {
        !(self.state is Open) || self.timed_out(now)
    }

    /// The breaker after it was asked at `now` whether a call may pass: an open
    /// breaker whose timeout is over becomes half-open, nothing else changes.
    pub open spec fn after_probe(self, now: nat) -> BreakerView {
        if self.state is Open && self.timed_out(now) {
            BreakerView { state: CircuitBreakerState::HalfOpen, success_count: 0, ..self }
        } else {
            self
        }
    }

    /// The breaker after a success was recorded.
    pub open spec fn after_success(self) -> BreakerView {
        match self.state {
            CircuitBreakerState::Closed => BreakerView { failure_count: 0, ..self },
            CircuitBreakerState::HalfOpen => {
                if self.success_count + 1 >= self.success_threshold {
                    BreakerView {
                        state: CircuitBreakerState::Closed,
                        failure_count: 0,
                        success_count: 0,
                        ..self
                    }
                } else {
                    BreakerView { success_count: self.success_count + 1, ..self }
                }
            },
            CircuitBreakerState::Open => self,
        }
    }

    /// The count of failures after one more: a count that has reached the
    /// largest number that the breaker can hold stays there.
    pub open spec fn one_more_failure(self) -> nat {
        if self.failure_count < usize::MAX {
            self.failure_count + 1
        } else {
            self.failure_count
        }
    }

    /// The breaker after a failure was recorded at `now`.
    pub open spec fn after_failure(self, now: nat) -> BreakerView {
        let counted = BreakerView {
            failure_count: self.one_more_failure(),
            last_failure_ms: Some(now),
            ..self
        };
        match self.state {
            CircuitBreakerState::Closed => {
                if counted.failure_count >= self.failure_threshold {
                    BreakerView { state: CircuitBreakerState::Open, ..counted }
                } else {
                    counted
                }
            },
            CircuitBreakerState::HalfOpen => BreakerView {
                state: CircuitBreakerState::Open,
                success_count: 0,
                ..counted
            },
            CircuitBreakerState::Open => counted,
        }
    }

    /// The breaker after failures recorded at the given times, one after another.
    pub open spec fn after_failures(self, times: Seq<nat>) -> BreakerView
        decreases times.len(),
    {
        if times.len() == 0 {
            self
        } else {
            self.after_failures(times.drop_last()).after_failure(times.last())
        }
    }

    /// The breaker after `n` successes recorded one after another.
    pub open spec fn after_successes(self, n: nat) -> BreakerView
        decreases n,
    {
        if n == 0 {
            self
        } else {
            self.after_successes((n - 1) as nat).after_success()
        }
    }
}

/// Circuit breaker for preventing cascading failures
#[derive(Debug)]
pub struct CircuitBreaker {
    failure_threshold: usize,
    success_threshold: usize,
    timeout_ms: u64,
    state: CircuitBreakerState,
    failure_count: usize,
    success_count: usize,
    last_failure_ms: Option<u64>,
    started: std::time::Instant,
}

impl View for CircuitBreaker {
    type V = BreakerView;

    closed spec fn view(&self) -> BreakerView {
        BreakerView {
            state: self.state,
            failure_count: self.failure_count as nat,
            success_count: self.success_count as nat,
            failure_threshold: self.failure_threshold as nat,
            success_threshold: self.success_threshold as nat,
            timeout_ms: self.timeout_ms as nat,
            last_failure_ms: match self.last_failure_ms {
                Some(t) => Some(t as nat),
                None => None,
            },
        }
    }
}

impl Clone for CircuitBreaker {
    fn clone(&self) -> (c: Self)
        ensures
            c@ == self@,
            c.spec_started() == self.spec_started(),
    {
        proof {
            use_type_invariant(self);
        }
        CircuitBreaker {
            failure_threshold: self.failure_threshold,
            success_threshold: self.success_threshold,
            timeout_ms: self.timeout_ms,
            state: self.state,
            failure_count: self.failure_count,
            success_count: self.success_count,
            last_failure_ms: self.last_failure_ms,
            started: self.started,
        }
    }
}

impl CircuitBreaker {
    #[verifier::type_invariant]
    spec fn inv(self) -> bool {
        self@.wf()
    }

    /// The origin of the breaker's clock: the moment from which every time
    /// that the breaker records, or is asked at, is counted.
    pub closed spec fn spec_started(&self) -> std::time::Instant {
        self.started
    }

    /// Create a new circuit breaker. The timeout is in milliseconds.
    pub fn new(failure_threshold: usize, success_threshold: usize, timeout_ms: u64) -> (b: Self)
        ensures
            b@ == BreakerView::initial(
                failure_threshold as nat,
                success_threshold as nat,
                timeout_ms as nat,
            ),
            b@.wf(),
    {
        CircuitBreaker {
            failure_threshold,
            success_threshold,
            timeout_ms,
            state: CircuitBreakerState::Closed,
            failure_count: 0,
            success_count: 0,
            last_failure_ms: None,
            started: std::time::Instant::now(),
        }
    }

    /// Check if the circuit breaker allows the operation at time `now_ms` on
    /// the breaker's clock.
    pub fn can_execute_at(&mut self, now_ms: u64) -> (ok: bool)
        ensures
            ok == old(self)@.allows(now_ms as nat),
            final(self)@ == old(self)@.after_probe(now_ms as nat),
            final(self)@.wf(),
            final(self).spec_started() == old(self).spec_started(),
    {
        proof {
            use_type_invariant(&*self);
        }
        match self.state {
            CircuitBreakerState::Closed => true,
            CircuitBreakerState::Open => {
                match self.last_failure_ms {
                    Some(last_failure) => {
                        if now_ms as u128 >= last_failure as u128 + self.timeout_ms as u128 {
                            self.success_count = 0;
                            self.state = CircuitBreakerState::HalfOpen;
                            true
                        } else {
                            false
                        }
                    },
                    None => false,
                }
            },
            CircuitBreakerState::HalfOpen => true,
        }
    }

    /// The present time on the breaker's clock, in milliseconds.
    pub fn now_ms(&self) -> (now: u64) {
        millis_since(&self.started)
    }

    /// Check if the circuit breaker allows the operation now.
    pub fn can_execute(&mut self) -> (ok: bool)
        ensures
            exists|now: nat|
                ok == old(self)@.allows(now) && final(self)@ == #[trigger] old(self)@.after_probe(
                    now,
                ),
            final(self).spec_started() == old(self).spec_started(),
    {
        let now_ms = millis_since(&self.started);
        let ghost before = self@;
        let ok = self.can_execute_at(now_ms);
        assert(ok == before.allows(now_ms as nat) && self@ == before.after_probe(now_ms as nat));
        ok
    }

    /// Record a successful operation
    pub fn record_success(&mut self)
        ensures
            final(self)@ == old(self)@.after_success(),
            final(self)@.wf(),
            final(self).spec_started() == old(self).spec_started(),
    {
        proof {
            use_type_invariant(&*self);
        }
        match self.state {
            CircuitBreakerState::Closed => {
                self.failure_count = 0;
            },
            CircuitBreakerState::HalfOpen => {
                if self.success_count + 1 >= self.success_threshold {
                    self.success_count = 0;
                    self.failure_count = 0;
                    self.state = CircuitBreakerState::Closed;
                } else {
                    self.success_count = self.success_count + 1;
                }
            },
            CircuitBreakerState::Open => {},
        }
    }

    /// Record a failed operation at time `now_ms` on the breaker's clock.
    pub fn record_failure_at(&mut self, now_ms: u64)
        ensures
            final(self)@ == old(self)@.after_failure(now_ms as nat),
            final(self)@.wf(),
            final(self).spec_started() == old(self).spec_started(),
    {
        proof {
            use_type_invariant(&*self);
        }
        if self.failure_count < usize::MAX {
            self.failure_count = self.failure_count + 1;
        }
        self.last_failure_ms = Some(now_ms);
        match self.state {
            CircuitBreakerState::Closed => {
                if self.failure_count >= self.failure_threshold {
                    self.state = CircuitBreakerState::Open;
                }
            },
            CircuitBreakerState::HalfOpen => {
                self.success_count = 0;
                self.state = CircuitBreakerState::Open;
            },
            CircuitBreakerState::Open => {},
        }
    }

    /// Record a failed operation now.
    pub fn record_failure(&mut self)
        ensures
            exists|now: nat| final(self)@ == #[trigger] old(self)@.after_failure(now),
            final(self).spec_started() == old(self).spec_started(),
    {
        let now_ms = millis_since(&self.started);
        let ghost before = self@;
        self.record_failure_at(now_ms);
        assert(self@ == before.after_failure(now_ms as nat));
    }

    /// Get the current state
    pub fn state(&self) -> (s: &'static str)
        ensures
            s@ == self@.state.name(),
    {
        match self.state {
            CircuitBreakerState::Closed => "closed",
            CircuitBreakerState::Open => "open",
            CircuitBreakerState::HalfOpen => "half-open",
        }
    }

    /// The number of failures counted so far.
    pub fn failure_count(&self) -> (n: usize)
        ensures
            n == self@.failure_count,
    {
        self.failure_count
    }
}

/// Failures recorded one after another on a closed breaker with nothing
/// counted are counted one by one, up to the largest number that the breaker
/// can hold; the breaker is open exactly from the failure on that reaches the
/// threshold.
pub proof fn lemma_consecutive_failures(b: BreakerView, times: Seq<nat>)
    requires
        b.state is Closed,
        b.failure_count == 0,
        b.failure_threshold <= usize::MAX,
    ensures
        ({
            let a = b.after_failures(times);
            &&& a.failure_count == (if times.len() <= usize::MAX {
                times.len()
            } else {
                usize::MAX as nat
            })
            &&& a.success_count == b.success_count
            &&& a.failure_threshold == b.failure_threshold
            &&& a.success_threshold == b.success_threshold
            &&& a.timeout_ms == b.timeout_ms
            &&& times.len() > 0 ==> a.last_failure_ms == Some(times.last())
            &&& a.state == if times.len() > 0 && times.len() >= b.failure_threshold {
                CircuitBreakerState::Open
            } else {
                CircuitBreakerState::Closed
            }
        }),
    decreases times.len(),
{
    if times.len() > 0 {
        lemma_consecutive_failures(b, times.drop_last());
    }
}

/// After as many consecutive failures as the threshold asks for, a breaker
/// that was closed rejects every call until the timeout has passed since the
/// last of them, and being asked changes nothing.
pub proof fn lemma_breaker_trips(b: BreakerView, times: Seq<nat>, now: nat)
    requires
        b.state is Closed,
        b.failure_count == 0,
        1 <= b.failure_threshold <= usize::MAX,
        times.len() == b.failure_threshold,
        now < times.last() + b.timeout_ms,
    ensures
        b.after_failures(times).state is Open,
        !b.after_failures(times).allows(now),
        b.after_failures(times).after_probe(now) == b.after_failures(times),
{
    lemma_consecutive_failures(b, times);
}

/// Once the timeout has passed since the last failure, exactly one question
/// moves an open breaker to half-open and is answered with yes; every later
/// question is answered with yes as well and moves nothing.
pub proof fn lemma_breaker_probes_once(b: BreakerView, now: nat, later: nat)
    requires
        b.state is Open,
        b.timed_out(now),
    ensures
        b.allows(now),
        b.after_probe(now).state is HalfOpen,
        b.after_probe(now).success_count == 0,
        b.after_probe(now).allows(later),
        b.after_probe(now).after_probe(later) == b.after_probe(now),
{
}

/// A half-open breaker with no success counted stays half-open through fewer
/// successes than the threshold asks for, and is closed, with both counts at
/// zero, after exactly that many.
pub proof fn lemma_breaker_recovers(b: BreakerView, n: nat)
    requires
        b.state is HalfOpen,
        b.success_count == 0,
        b.success_threshold >= 1,
        n <= b.success_threshold,
    ensures
        n < b.success_threshold ==> b.after_successes(n).state is HalfOpen && b.after_successes(
            n,
        ).success_count == n,
        n == b.success_threshold ==> b.after_successes(n).state is Closed && b.after_successes(
            n,
        ).success_count == 0 && b.after_successes(n).failure_count == 0,
        b.after_successes(n).success_threshold == b.success_threshold,
    decreases n,
{
    if n > 0 {
        lemma_breaker_recovers(b, (n - 1) as nat);
    }
}

/// A single failure while half-open opens the breaker again and clears the
/// count of successes.
pub proof fn lemma_half_open_failure_reopens(b: BreakerView, now: nat)
    requires
        b.state is HalfOpen,
    ensures
        b.after_failure(now).state is Open,
        b.after_failure(now).success_count == 0,
        b.after_failure(now).last_failure_ms == Some(now),
{
}

/// Every step keeps a well-formed breaker well formed.
pub proof fn lemma_breaker_steps_keep_wf(b: BreakerView, now: nat)
    requires
        b.wf(),
    ensures
        b.after_probe(now).wf(),
        b.after_success().wf(),
        b.after_failure(now).wf(),
{
}


} // verus!
