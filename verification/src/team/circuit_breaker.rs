use vstd::prelude::*;
use crate::clock::now_micros;
use crate::team::retry::RejectionReason;

verus! {

/// The three states of a circuit breaker.
#[derive(Debug, Clone, Copy, PartialEq, Eq, Structural)]
pub enum CircuitState {
    Closed,
    Open,
    HalfOpen,
}

/// Thirty seconds, in microseconds: the recovery timeout of `CircuitBreaker::new`.
pub const DEFAULT_RECOVERY_TIMEOUT_MICROS: i64 = 30_000_000;

/// The observable state of a circuit breaker. Times are microseconds since the epoch.
pub struct BreakerView {
    pub failure_threshold: usize,
    pub success_threshold: usize,
    pub recovery_timeout: i64,
    pub state: CircuitState,
    pub failure_count: usize,
    pub success_count: usize,
    pub last_failure_time: Option<i64>,
}

/// The invariant that every breaker keeps: a closed breaker has not yet reached
/// its failure threshold (or has counted nothing), the success count is below its
/// threshold (or zero), and an open breaker knows when it last failed.
pub open spec fn breaker_inv(v: BreakerView) -> bool {
    &&& v.state == CircuitState::Closed ==> (v.failure_count < v.failure_threshold || v.failure_count == 0)
    &&& (v.success_count < v.success_threshold || v.success_count == 0)
    &&& v.state == CircuitState::Open ==> v.last_failure_time is Some
}

/// A fresh, closed breaker.
pub open spec fn fresh_breaker(failure_threshold: usize, success_threshold: usize, recovery_timeout: i64) -> BreakerView {
    BreakerView {
        failure_threshold,
        success_threshold,
        recovery_timeout,
        state: CircuitState::Closed,
        failure_count: 0,
        success_count: 0,
        last_failure_time: None,
    }
}

/// The breaker `v` with its state, counts and last failure time replaced.
pub open spec fn with_fields(v: BreakerView, state: CircuitState, failure_count: usize, success_count: usize, last_failure_time: Option<i64>) -> BreakerView {
    BreakerView {
        failure_threshold: v.failure_threshold,
        success_threshold: v.success_threshold,
        recovery_timeout: v.recovery_timeout,
        state,
        failure_count,
        success_count,
        last_failure_time,
    }
}

/// What recording a failure at time `now` does.
pub open spec fn failure_step(v: BreakerView, now: i64) -> BreakerView {
    match v.state {
        CircuitState::Closed => with_fields(
            v,
            if v.failure_count + 1 >= v.failure_threshold { CircuitState::Open } else { CircuitState::Closed },
            (v.failure_count + 1) as usize,
            v.success_count,
            Some(now),
        ),
        CircuitState::HalfOpen => with_fields(v, CircuitState::Open, 0, 0, Some(now)),
        CircuitState::Open => with_fields(v, CircuitState::Open, v.failure_count, v.success_count, Some(now)),
    }
}

/// What recording a success does.
pub open spec fn success_step(v: BreakerView) -> BreakerView {
    match v.state {
        CircuitState::Closed | CircuitState::HalfOpen => {
            if v.success_count + 1 >= v.success_threshold {
                with_fields(v, CircuitState::Closed, 0, 0, v.last_failure_time)
            } else {
                with_fields(v, v.state, v.failure_count, (v.success_count + 1) as usize, v.last_failure_time)
            }
        },
        CircuitState::Open => v,
    }
}

/// Whether the recovery timeout has run out at `now`.
pub open spec fn timeout_elapsed(v: BreakerView, now: i64) -> bool {
    match v.last_failure_time {
        Some(t) => now - t >= v.recovery_timeout,
        None => false,
    }
}

/// What asking for permission at time `now` does, and the answer.
pub open spec fn allow_step(v: BreakerView, now: i64) -> (BreakerView, bool) {
    match v.state {
        CircuitState::Closed | CircuitState::HalfOpen => (v, true),
        CircuitState::Open => if timeout_elapsed(v, now) {
            (with_fields(v, CircuitState::HalfOpen, v.failure_count, 0, v.last_failure_time), true)
        } else {
            (v, false)
        },
    }
}

/// Forcing the breaker half-open.
pub open spec fn half_open_step(v: BreakerView) -> BreakerView {
    with_fields(v, CircuitState::HalfOpen, v.failure_count, 0, v.last_failure_time)
}

/// A circuit breaker that opens after repeated failures and lets a trial
/// request through once its recovery timeout has passed.
pub struct CircuitBreaker {
    failure_threshold: usize,
    success_threshold: usize,
    recovery_timeout: i64,
    state: CircuitState,
    failure_count: usize,
    success_count: usize,
    last_failure_time: Option<i64>,
}

impl View for CircuitBreaker {
    type V = BreakerView;

    closed spec fn view(&self) -> BreakerView {
        BreakerView {
            failure_threshold: self.failure_threshold,
            success_threshold: self.success_threshold,
            recovery_timeout: self.recovery_timeout,
            state: self.state,
            failure_count: self.failure_count,
            success_count: self.success_count,
            last_failure_time: self.last_failure_time,
        }
    }
}

impl CircuitBreaker {
    #[verifier::type_invariant]
    closed spec fn inv(self) -> bool {
        breaker_inv(self@)
    }

    /// A closed breaker with a thirty-second recovery timeout.
    pub fn new(failure_threshold: usize, success_threshold: usize) -> (cb: CircuitBreaker)
        ensures
            cb@ == fresh_breaker(failure_threshold, success_threshold, DEFAULT_RECOVERY_TIMEOUT_MICROS),
    {
        Self::with_recovery_timeout(failure_threshold, success_threshold, DEFAULT_RECOVERY_TIMEOUT_MICROS)
    }

    /// A closed breaker whose recovery timeout is `recovery_timeout` microseconds.
    pub fn with_recovery_timeout(failure_threshold: usize, success_threshold: usize, recovery_timeout: i64) -> (cb: CircuitBreaker)
        ensures
            cb@ == fresh_breaker(failure_threshold, success_threshold, recovery_timeout),
    {
        CircuitBreaker {
            failure_threshold,
            success_threshold,
            recovery_timeout,
            state: CircuitState::Closed,
            failure_count: 0,
            success_count: 0,
            last_failure_time: None,
        }
    }

    /// A copy of the breaker's observable state.
    pub fn snapshot(&self) -> (v: BreakerView)
        ensures
            v == self@,
    {
        BreakerView {
            failure_threshold: self.failure_threshold,
            success_threshold: self.success_threshold,
            recovery_timeout: self.recovery_timeout,
            state: self.state,
            failure_count: self.failure_count,
            success_count: self.success_count,
            last_failure_time: self.last_failure_time,
        }
    }

    pub fn state(&self) -> (s: CircuitState)
        ensures
            s == self@.state,
    {
        self.state
    }

    /// Records a failure that happened at time `now`.
    pub fn record_failure_at(&mut self, reason: &RejectionReason, now: i64)
        ensures
            final(self)@ == failure_step(old(self)@, now),
    {
        proof { use_type_invariant(&*self); }
        let next = match self.state {
            CircuitState::Closed => {
                let count = self.failure_count + 1;
                CircuitBreaker {
                    failure_count: count,
                    last_failure_time: Some(now),
                    state: if count >= self.failure_threshold { CircuitState::Open } else { CircuitState::Closed },
                    ..*self
                }
            },
            CircuitState::HalfOpen => CircuitBreaker {
                state: CircuitState::Open,
                failure_count: 0,
                success_count: 0,
                last_failure_time: Some(now),
                ..*self
            },
            CircuitState::Open => CircuitBreaker { last_failure_time: Some(now), ..*self },
        };
        *self = next;
    }

    /// Records a failure at the current wall-clock time.
    pub fn record_failure(&mut self, reason: &RejectionReason)
        ensures
            exists|now: i64| final(self)@ == failure_step(old(self)@, now),
    {
        let now = now_micros();
        self.record_failure_at(reason, now);
    }

    /// Records a success.
    pub fn record_success(&mut self)
        ensures
            final(self)@ == success_step(old(self)@),
    {
        proof { use_type_invariant(&*self); }
        match self.state {
            CircuitState::Closed | CircuitState::HalfOpen => {
                let count = self.success_count + 1;
                let next = if count >= self.success_threshold {
                    CircuitBreaker { state: CircuitState::Closed, failure_count: 0, success_count: 0, ..*self }
                } else {
                    CircuitBreaker { success_count: count, ..*self }
                };
                *self = next;
            },
            CircuitState::Open => {},
        }
    }

    /// Asks, at time `now`, whether a request may go through; an open breaker whose
    /// recovery timeout has passed turns half-open and lets it through.
    pub fn allow_request_at(&mut self, now: i64) -> (allowed: bool)
        ensures
            (final(self)@, allowed) == allow_step(old(self)@, now),
    {
        proof { use_type_invariant(&*self); }
        match self.state {
            CircuitState::Closed => true,
            CircuitState::HalfOpen => true,
            CircuitState::Open => {
                match self.last_failure_time {
                    Some(t) => {
                        let elapsed: i128 = now as i128 - t as i128;
                        if elapsed >= self.recovery_timeout as i128 {
                            let next = CircuitBreaker { state: CircuitState::HalfOpen, success_count: 0, ..*self };
                            *self = next;
                            true
                        } else {
                            false
                        }
                    },
                    None => false,
                }
            },
        }
    }

    /// Asks at the current wall-clock time whether a request may go through.
    pub fn allow_request(&mut self) -> (allowed: bool)
        ensures
            exists|now: i64| (final(self)@, allowed) == allow_step(old(self)@, now),
    {
        let now = now_micros();
        self.allow_request_at(now)
    }

    pub fn transition_to_half_open(&mut self)
        ensures
            final(self)@ == half_open_step(old(self)@),
    {
        let next = CircuitBreaker { state: CircuitState::HalfOpen, success_count: 0, ..*self };
        *self = next;
    }
}

/// `k` failures recorded at time `now`, one after another.
pub open spec fn failures(v: BreakerView, k: nat, now: i64) -> BreakerView
    decreases k,
{
    if k == 0 { v } else { failure_step(failures(v, (k - 1) as nat, now), now) }
}

/// `k` successes recorded one after another.
pub open spec fn successes(v: BreakerView, k: nat) -> BreakerView
    decreases k,
{
    if k == 0 { v } else { success_step(successes(v, (k - 1) as nat)) }
}

/// Every operation of the breaker keeps the breaker invariant.
pub proof fn lemma_steps_keep_invariant(v: BreakerView, now: i64)
    requires
        breaker_inv(v),
    ensures
        breaker_inv(failure_step(v, now)),
        breaker_inv(success_step(v)),
        breaker_inv(allow_step(v, now).0),
        breaker_inv(half_open_step(v)),
{
}

/// A fresh breaker stays closed, counting, for fewer than `failure_threshold`
/// failures, and opens at the `failure_threshold`-th one.
pub proof fn lemma_fresh_breaker_opens_at_threshold(ft: usize, st: usize, timeout: i64, k: nat, now: i64)
    requires
        1 <= k <= ft,
    ensures
        failures(fresh_breaker(ft, st, timeout), k, now).failure_count == k,
        failures(fresh_breaker(ft, st, timeout), k, now).failure_threshold == ft,
        failures(fresh_breaker(ft, st, timeout), k, now).success_threshold == st,
        failures(fresh_breaker(ft, st, timeout), k, now).recovery_timeout == timeout,
        failures(fresh_breaker(ft, st, timeout), k, now).last_failure_time == Some(now),
        k < ft ==> failures(fresh_breaker(ft, st, timeout), k, now).state == CircuitState::Closed,
        k == ft ==> failures(fresh_breaker(ft, st, timeout), k, now).state == CircuitState::Open,
    decreases k,
{
    reveal_with_fuel(failures, 2);
    if k > 1 {
        lemma_fresh_breaker_opens_at_threshold(ft, st, timeout, (k - 1) as nat, now);
        let prev = failures(fresh_breaker(ft, st, timeout), (k - 1) as nat, now);
        assert(prev.state == CircuitState::Closed);
        assert(failures(fresh_breaker(ft, st, timeout), k, now) == failure_step(prev, now));
    }
}

/// A closed or half-open breaker always lets requests through, unchanged.
pub proof fn lemma_not_open_allows(v: BreakerView, now: i64)
    requires
        v.state != CircuitState::Open,
    ensures
        allow_step(v, now) == (v, true),
{
}

/// An open breaker refuses every request, unchanged, until the recovery timeout
/// has passed since its last failure; once it has, it turns half-open and lets one through.
pub proof fn lemma_open_blocks_until_timeout(v: BreakerView, now: i64)
    requires
        breaker_inv(v),
        v.state == CircuitState::Open,
    ensures
        now - v.last_failure_time->0 < v.recovery_timeout ==> allow_step(v, now) == (v, false),
        now - v.last_failure_time->0 >= v.recovery_timeout ==> allow_step(v, now).1
            && allow_step(v, now).0.state == CircuitState::HalfOpen,
{
}

/// Successes do not close an open breaker.
pub proof fn lemma_open_ignores_success(v: BreakerView)
    requires
        v.state == CircuitState::Open,
    ensures
        success_step(v) == v,
{
}

/// A failure while half-open reopens the breaker and clears both counts.
pub proof fn lemma_half_open_failure_reopens(v: BreakerView, now: i64)
    requires
        v.state == CircuitState::HalfOpen,
    ensures
        failure_step(v, now).state == CircuitState::Open,
        failure_step(v, now).failure_count == 0,
        failure_step(v, now).success_count == 0,
        failure_step(v, now).last_failure_time == Some(now),
{
}

/// A half-open breaker that has just been tripped into trial mode closes again,
/// with both counts cleared, after `success_threshold` successes, and not before.
pub proof fn lemma_half_open_closes_after_successes(v: BreakerView, k: nat)
    requires
        v.state == CircuitState::HalfOpen,
        v.success_count == 0,
        1 <= k <= v.success_threshold,
    ensures
        successes(v, k).success_threshold == v.success_threshold,
        successes(v, k).failure_threshold == v.failure_threshold,
        k < v.success_threshold ==> successes(v, k).state == CircuitState::HalfOpen
            && successes(v, k).success_count == k,
        k == v.success_threshold ==> successes(v, k).state == CircuitState::Closed
            && successes(v, k).failure_count == 0 && successes(v, k).success_count == 0,
    decreases k,
{
    reveal_with_fuel(successes, 2);
    if k > 1 {
        lemma_half_open_closes_after_successes(v, (k - 1) as nat);
    }
}

} // verus!
