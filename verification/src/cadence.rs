//! Cycle timing in whole nanoseconds.

use vstd::prelude::*;

verus! {

/// Nanoseconds in one second.
pub const NANOS_PER_SECOND: u64 = 1_000_000_000;

/// The cycle period at `rate` cycles per second: the least whole number of
/// nanoseconds that is no shorter than `1 / rate` seconds.
pub open spec fn period_nanos(rate: nat) -> nat
    recommends
        rate > 0,
{
    ((NANOS_PER_SECOND + rate - 1) / (rate as int)) as nat
}

/// How long to suspend after a cycle that took `elapsed` nanoseconds: the rest
/// of the period, or nothing where the cycle used the period up.
pub open spec fn pause(period: nat, elapsed: nat) -> Option<nat> {
    if elapsed < period {
        Some((period - elapsed) as nat)
    } else {
        None
    }
}

/// `period_nanos(rate)` is the least `p` with `p * rate >= 10^9`.
pub proof fn lemma_period_is_least(rate: nat)
    requires
        rate > 0,
    ensures
        period_nanos(rate) * rate >= NANOS_PER_SECOND,
        (period_nanos(rate) - 1) * rate < NANOS_PER_SECOND,
        1 <= period_nanos(rate) <= NANOS_PER_SECOND,
{
    let total: int = NANOS_PER_SECOND + rate - 1;
    let r: int = rate as int;
    let p: int = total / r;
    assert(total == r * p + total % r && 0 <= total % r < r) by {
        vstd::arithmetic::div_mod::lemma_fundamental_div_mod(total, r);
        vstd::arithmetic::div_mod::lemma_mod_bound(total, r);
    }
    assert(p * r == r * p) by (nonlinear_arith);
    assert((p - 1) * r == p * r - r) by (nonlinear_arith);
    assert(p >= 1) by (nonlinear_arith)
        requires
            r * p + r > total,
            total >= r,
            r > 0,
    ;
    assert(p <= NANOS_PER_SECOND) by (nonlinear_arith)
        requires
            r * p <= total,
            total == NANOS_PER_SECOND + r - 1,
            r >= 1,
            p >= 1,
    ;
}

/// A cycle that is shorter than `1 / rate` seconds is followed by a pause, and
/// cycle and pause together last at least `1 / rate` seconds.
pub proof fn lemma_cadence_lower_bound(rate: nat, elapsed: nat)
    requires
        rate > 0,
        elapsed * rate < NANOS_PER_SECOND,
    ensures
        pause(period_nanos(rate), elapsed) is Some,
        (elapsed + pause(period_nanos(rate), elapsed).unwrap()) * rate >= NANOS_PER_SECOND,
{
    lemma_period_is_least(rate);
    let p = period_nanos(rate);
    assert(elapsed < p) by (nonlinear_arith)
        requires
            elapsed * rate < NANOS_PER_SECOND,
            p * rate >= NANOS_PER_SECOND,
            rate > 0,
    ;
}

/// A cycle that lasts `1 / rate` seconds or longer is followed by no pause.
pub proof fn lemma_cadence_degradation(rate: nat, elapsed: nat)
    requires
        rate > 0,
        elapsed * rate >= NANOS_PER_SECOND,
    ensures
        pause(period_nanos(rate), elapsed) is None,
{
    lemma_period_is_least(rate);
    let p = period_nanos(rate);
    assert(elapsed >= p) by (nonlinear_arith)
        requires
            elapsed * rate >= NANOS_PER_SECOND,
            (p - 1) * rate < NANOS_PER_SECOND,
            rate > 0,
    ;
}

/// The cycle period for a configured rate, or `None` for the rate zero, which
/// has no period.
pub fn cycle_period(rate: u8) -> (period: Option<u64>)
    ensures
        rate == 0 <==> period is None,
        rate > 0 ==> period == Some(period_nanos(rate as nat) as u64),
        rate > 0 ==> period.unwrap() * rate >= NANOS_PER_SECOND > (period.unwrap() - 1) * rate,
{
    if rate == 0 {
        None
    } else {
        proof {
            lemma_period_is_least(rate as nat);
        }
        let rate64: u64 = rate as u64;
        Some((NANOS_PER_SECOND + rate64 - 1) / rate64)
    }
}

/// The pause that follows a cycle of `elapsed` nanoseconds under a period of
/// `period` nanoseconds.
pub fn remaining(period: u64, elapsed: u128) -> (rest: Option<u64>)
    ensures
        rest is Some <==> elapsed < period,
        match rest {
            Some(nanos) => pause(period as nat, elapsed as nat) == Some(nanos as nat),
            None => pause(period as nat, elapsed as nat) is None,
        },
{
    if elapsed < period as u128 {
        Some(period - (elapsed as u64))
    } else {
        None
    }
}

} // verus!
