use vstd::prelude::*;
use std::collections::HashMap;
use crate::clock::now_micros;
use crate::team::circuit_breaker::{
    allow_step, failure_step, fresh_breaker, success_step, BreakerView, CircuitBreaker,
    CircuitState, DEFAULT_RECOVERY_TIMEOUT_MICROS,
};

verus! {

/// Why a team member turned down (or could not take) a delegation.
pub enum RejectionReason {
    CapacityFull,
    Timeout,
    CapabilityMismatch,
    PolicyViolation,
    MemberUnavailable,
    Other(String),
}

/// A budget of retries: `remaining` of `total` are still available,
/// `spent` have been used.
pub struct RetryBudget {
    pub total: usize,
    pub remaining: usize,
    pub spent: usize,
}

impl RetryBudget {
    /// The budget's bookkeeping is consistent: what is left and what was spent
    /// add up to the total.
    pub open spec fn wf(&self) -> bool {
        self.remaining + self.spent == self.total
    }

    pub fn new(total: usize) -> (b: RetryBudget)
        ensures
            b.total == total,
            b.remaining == total,
            b.spent == 0,
            b.wf(),
    {
        RetryBudget { total, remaining: total, spent: 0 }
    }

    /// The budget after trying to spend `amount` retries, and whether the spend happened.
    pub open spec fn consume_spec(self, amount: usize) -> (RetryBudget, bool) {
        if self.remaining >= amount {
            (RetryBudget {
                total: self.total,
                remaining: (self.remaining - amount) as usize,
                spent: (self.spent + amount) as usize,
            }, true)
        } else {
            (self, false)
        }
    }

    pub open spec fn can_retry_spec(&self) -> bool {
        self.remaining > 0
    }

    pub open spec fn is_exhausted_spec(&self) -> bool {
        self.remaining == 0
    }

    /// Spends `amount` retries if that many remain; reports whether it did.
    pub fn consume(&mut self, amount: usize) -> (ok: bool)
        requires
            old(self).remaining >= amount ==> old(self).spent + amount <= usize::MAX,
        ensures
            (*final(self), ok) == old(self).consume_spec(amount),
    {
        if self.remaining >= amount {
            self.remaining = self.remaining - amount;
            self.spent = self.spent + amount;
            true
        } else {
            false
        }
    }

    pub fn can_retry(&self) -> (r: bool)
        ensures
            r == self.can_retry_spec(),
    {
        self.remaining > 0
    }

    pub fn is_exhausted(&self) -> (r: bool)
        ensures
            r == self.is_exhausted_spec(),
    {
        self.remaining == 0
    }
}

/// Spending from a consistent budget keeps it consistent, keeps its total, and
/// moves exactly `amount` from what remains to what was spent when it succeeds.
pub proof fn lemma_consume_keeps_budget_consistent(b: RetryBudget, amount: usize)
    requires
        b.wf(),
    ensures
        b.consume_spec(amount).0.wf(),
        b.consume_spec(amount).0.total == b.total,
        b.consume_spec(amount).1 ==> b.consume_spec(amount).0.spent == b.spent + amount,
        !b.consume_spec(amount).1 ==> b.consume_spec(amount).0 == b,
{
}

/// A budget has retries left exactly when it is not exhausted.
pub proof fn lemma_can_retry_iff_not_exhausted(b: RetryBudget)
    ensures
        b.can_retry_spec() <==> !b.is_exhausted_spec(),
{
}

/// Spending one retry at a time, `k` times, from a consistent budget that has at
/// least `k` left leaves it consistent with `k` fewer remaining and `k` more spent.
pub proof fn lemma_unit_spends_keep_account(b: RetryBudget, k: nat)
    requires
        b.wf(),
        k <= b.remaining,
    ensures
        unit_spends(b, k).wf(),
        unit_spends(b, k).remaining == b.remaining - k,
        unit_spends(b, k).spent == b.spent + k,
    decreases k,
{
    if k > 0 {
        lemma_unit_spends_keep_account(b, (k - 1) as nat);
    }
}

/// The budget after `k` successive spends of one retry each.
pub open spec fn unit_spends(b: RetryBudget, k: nat) -> RetryBudget
    decreases k,
{
    if k == 0 {
        b
    } else {
        unit_spends(b, (k - 1) as nat).consume_spec(1).0
    }
}

/// What to do after a member rejected a delegation.
pub enum RetryDecision {
    RetryWithSameMember,
    RetryWithOtherMember,
    DoNotRetry { reason: String },
}

/// The decision that `classify_rejection` makes, with the reason text of a refusal.
pub open spec fn spec_classify(reason: RejectionReason, remaining: usize) -> (bool, bool, Seq<char>) {
    // (retry?, same member?, refusal text)
    match reason {
        RejectionReason::CapacityFull => if remaining > 0 { (true, false, seq![]) } else { (false, false, "Budget exhausted"@) },
        RejectionReason::Timeout => if remaining > 0 { (true, true, seq![]) } else { (false, false, "Budget exhausted"@) },
        RejectionReason::CapabilityMismatch => (false, false, "Capability mismatch"@),
        RejectionReason::PolicyViolation => (false, false, "Policy violation"@),
        RejectionReason::MemberUnavailable => if remaining > 0 { (true, false, seq![]) } else { (false, false, "Budget exhausted"@) },
        RejectionReason::Other(_) => (false, false, "Unknown error"@),
    }
}

pub open spec fn decision_matches(d: RetryDecision, expected: (bool, bool, Seq<char>)) -> bool {
    match d {
        RetryDecision::RetryWithSameMember => expected.0 && expected.1,
        RetryDecision::RetryWithOtherMember => expected.0 && !expected.1,
        RetryDecision::DoNotRetry { reason } => !expected.0 && reason@ == expected.2,
    }
}

pub fn classify_rejection(reason: &RejectionReason, budget: &RetryBudget) -> (d: RetryDecision)
    ensures
        decision_matches(d, spec_classify(*reason, budget.remaining)),
        d is RetryWithSameMember <==> (*reason is Timeout && budget.remaining > 0),
        d is RetryWithOtherMember <==> ((*reason is MemberUnavailable || *reason is CapacityFull) && budget.remaining > 0),
{
    match reason {
        RejectionReason::CapacityFull => {
            if budget.can_retry() {
                RetryDecision::RetryWithOtherMember
            } else {
                RetryDecision::DoNotRetry { reason: String::from_str("Budget exhausted") }
            }
        },
        RejectionReason::Timeout => {
            if budget.can_retry() {
                RetryDecision::RetryWithSameMember
            } else {
                RetryDecision::DoNotRetry { reason: String::from_str("Budget exhausted") }
            }
        },
        RejectionReason::CapabilityMismatch => RetryDecision::DoNotRetry {
            reason: String::from_str("Capability mismatch"),
        },
        RejectionReason::PolicyViolation => RetryDecision::DoNotRetry {
            reason: String::from_str("Policy violation"),
        },
        RejectionReason::MemberUnavailable => {
            if budget.can_retry() {
                RetryDecision::RetryWithOtherMember
            } else {
                RetryDecision::DoNotRetry { reason: String::from_str("Budget exhausted") }
            }
        },
        RejectionReason::Other(_) => RetryDecision::DoNotRetry {
            reason: String::from_str("Unknown error"),
        },
    }
}

/// Whom a rejected delegation is retried with: the same member only after a
/// timeout; another member when the first was unavailable or at capacity; and
/// only while the budget has retries left. A capability mismatch, a policy
/// violation or an unknown error is never retried.
pub proof fn lemma_retry_member_choice(reason: RejectionReason, remaining: usize, d: RetryDecision)
    requires
        decision_matches(d, spec_classify(reason, remaining)),
    ensures
        d is RetryWithSameMember <==> (reason is Timeout && remaining > 0),
        d is RetryWithOtherMember <==> ((reason is MemberUnavailable || reason is CapacityFull) && remaining > 0),
        d is DoNotRetry <==> (remaining == 0 || reason is CapabilityMismatch || reason is PolicyViolation || reason is Other),
{
}

/// Failures after which a member's breaker opens.
pub const MEMBER_FAILURE_THRESHOLD: usize = 5;

/// Successes after which a member's half-open breaker closes again.
pub const MEMBER_SUCCESS_THRESHOLD: usize = 3;

/// The breaker of a member that has not been seen yet.
pub open spec fn fresh_member_breaker() -> BreakerView {
    fresh_breaker(MEMBER_FAILURE_THRESHOLD, MEMBER_SUCCESS_THRESHOLD, DEFAULT_RECOVERY_TIMEOUT_MICROS)
}

/// The breaker that the tracker uses for `member`: its own, or a fresh one.
pub open spec fn member_breaker(m: Map<u128, BreakerView>, member: u128) -> BreakerView {
    if m.contains_key(member) { m[member] } else { fresh_member_breaker() }
}

/// A member's health as the tracker reports it.
pub struct MemberHealth {
    pub member_id: u128,
    pub circuit_state: CircuitState,
    pub failure_count: usize,
    pub success_count: usize,
    pub is_healthy: bool,
    /// Microseconds since the Unix epoch.
    pub last_seen: i64,
}

/// One circuit breaker per team member, created on first use.
pub struct MemberHealthTracker {
    breakers: HashMap<u128, CircuitBreaker>,
}

impl View for MemberHealthTracker {
    type V = Map<u128, BreakerView>;

    closed spec fn view(&self) -> Map<u128, BreakerView> {
        self.breakers@.map_values(|cb: CircuitBreaker| cb@)
    }
}

impl MemberHealthTracker {
    pub fn new() -> (t: MemberHealthTracker)
        ensures
            t@ == Map::<u128, BreakerView>::empty(),
    {
        let t = MemberHealthTracker { breakers: HashMap::new() };
        assert(t@ =~= Map::<u128, BreakerView>::empty());
        t
    }

    /// Takes `member`'s breaker out of the tracker (a fresh one if it had none),
    /// leaving every other member's entry in place.
    fn take(&mut self, member: u128) -> (cb: CircuitBreaker)
        ensures
            cb@ == member_breaker(old(self)@, member),
            final(self)@ == old(self)@.remove(member),
    {
        broadcast use vstd::std_specs::hash::group_hash_axioms;
        let taken = self.breakers.remove(&member);
        assert(self@ =~= old(self)@.remove(member));
        match taken {
            Some(cb) => cb,
            None => CircuitBreaker::new(MEMBER_FAILURE_THRESHOLD, MEMBER_SUCCESS_THRESHOLD),
        }
    }

    /// Puts `cb` back as `member`'s breaker.
    fn put(&mut self, member: u128, cb: CircuitBreaker)
        ensures
            final(self)@ == old(self)@.insert(member, cb@),
    {
        broadcast use vstd::std_specs::hash::group_hash_axioms;
        let ghost cbv = cb@;
        let _ = self.breakers.insert(member, cb);
        assert(self@ =~= old(self)@.insert(member, cbv));
    }

    /// Makes sure that `member` has a breaker and reports its current state.
    pub fn get_or_create(&mut self, member: u128) -> (v: BreakerView)
        ensures
            v == member_breaker(old(self)@, member),
            final(self)@ == old(self)@.insert(member, member_breaker(old(self)@, member)),
    {
        let cb = self.take(member);
        let v = cb.snapshot();
        self.put(member, cb);
        proof { assert(self@ =~= old(self)@.insert(member, member_breaker(old(self)@, member))); }
        v
    }

    pub fn record_failure(&mut self, member: u128, reason: RejectionReason)
        ensures
            exists|now: i64| final(self)@ == old(self)@.insert(member, failure_step(member_breaker(old(self)@, member), now)),
    {
        let mut cb = self.take(member);
        cb.record_failure(&reason);
        self.put(member, cb);
        proof { assert(self@ =~= old(self)@.remove(member).insert(member, cb@)); }
    }

    pub fn record_success(&mut self, member: u128)
        ensures
            final(self)@ == old(self)@.insert(member, success_step(member_breaker(old(self)@, member))),
    {
        let mut cb = self.take(member);
        cb.record_success();
        self.put(member, cb);
        proof { assert(self@ =~= old(self)@.remove(member).insert(member, cb@)); }
    }

    /// Whether a request may go to `member` now (which may turn its open breaker half-open).
    pub fn is_healthy(&mut self, member: u128) -> (healthy: bool)
        ensures
            exists|now: i64|
                #![trigger allow_step(member_breaker(old(self)@, member), now)]
                final(self)@ == old(self)@.insert(member, allow_step(member_breaker(old(self)@, member), now).0)
                && healthy == allow_step(member_breaker(old(self)@, member), now).1,
    {
        let mut cb = self.take(member);
        let healthy = cb.allow_request();
        self.put(member, cb);
        proof { assert(self@ =~= old(self)@.remove(member).insert(member, cb@)); }
        healthy
    }

    /// Reports `member`'s health: the breaker state before asking, and whether a
    /// request may go through now. The counts are always reported as zero.
    pub fn get_health(&mut self, member: u128) -> (h: MemberHealth)
        ensures
            h.member_id == member,
            h.circuit_state == member_breaker(old(self)@, member).state,
            h.failure_count == 0,
            h.success_count == 0,
            exists|now: i64|
                #![trigger allow_step(member_breaker(old(self)@, member), now)]
                final(self)@ == old(self)@.insert(member, allow_step(member_breaker(old(self)@, member), now).0)
                && h.is_healthy == allow_step(member_breaker(old(self)@, member), now).1,
    {
        let mut cb = self.take(member);
        let state = cb.state();
        let healthy = cb.allow_request();
        self.put(member, cb);
        proof { assert(self@ =~= old(self)@.remove(member).insert(member, cb@)); }
        let last_seen = now_micros();
        MemberHealth {
            member_id: member,
            circuit_state: state,
            failure_count: 0,
            success_count: 0,
            is_healthy: healthy,
            last_seen,
        }
    }
}

/// A member that the tracker has not seen is healthy, and asking leaves its fresh breaker as it was.
pub proof fn lemma_unseen_member_is_healthy(m: Map<u128, BreakerView>, member: u128, now: i64)
    requires
        !m.contains_key(member),
    ensures
        allow_step(member_breaker(m, member), now) == (fresh_member_breaker(), true),
{
}

} // verus!
