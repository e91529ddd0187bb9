//! Webhook delivery with retries, and how a background run is settled and reported.

use vstd::prelude::*;
use crate::clock::now_micros;

verus! {

/// Sends webhooks, retrying a failed delivery up to `max_retries` times with a
/// wait that starts at `base_delay_ms` and doubles after each failure.
pub struct WebhookManager {
    pub max_retries: u32,
    pub base_delay_ms: u64,
}

/// What to do after one delivery attempt.
#[derive(Debug, Clone, Copy, PartialEq, Eq, Structural)]
pub enum WebhookStep {
    /// The webhook was delivered.
    Delivered,
    /// The last allowed attempt failed; the error is reported.
    GiveUp,
    /// Wait `wait_ms`, then try again with `next_delay_ms` as the following wait.
    RetryAfter { wait_ms: u64, next_delay_ms: u64 },
}

pub open spec fn spec_after_attempt(max_retries: u32, attempt: nat, delay_ms: u64, delivered: bool) -> WebhookStep {
    if delivered {
        WebhookStep::Delivered
    } else if attempt > max_retries {
        WebhookStep::GiveUp
    } else {
        WebhookStep::RetryAfter { wait_ms: delay_ms, next_delay_ms: (2 * delay_ms) as u64 }
    }
}

impl WebhookManager {
    pub fn new(max_retries: u32, base_delay_ms: u64) -> (m: Self)
        ensures
            m.max_retries == max_retries,
            m.base_delay_ms == base_delay_ms,
    {
        WebhookManager { max_retries, base_delay_ms }
    }

    /// How many deliveries are tried at most: the first and every retry.
    pub fn attempts(&self) -> (n: u32)
        requires
            self.max_retries < u32::MAX,
        ensures
            n == self.max_retries + 1,
    {
        self.max_retries + 1
    }

    /// The step after attempt number `attempt` (counting from one), made with the
    /// current wait `delay_ms`.
    pub fn after_attempt(&self, attempt: u32, delay_ms: u64, delivered: bool) -> (s: WebhookStep)
        requires
            attempt >= 1,
            2 * delay_ms <= u64::MAX,
        ensures
            s == spec_after_attempt(self.max_retries, attempt as nat, delay_ms, delivered),
    {
        if delivered {
            WebhookStep::Delivered
        } else if attempt > self.max_retries {
            WebhookStep::GiveUp
        } else {
            WebhookStep::RetryAfter { wait_ms: delay_ms, next_delay_ms: 2 * delay_ms }
        }
    }
}

/// The number of deliveries made when every one of them fails, starting from
/// attempt number `attempt`.
pub open spec fn failed_deliveries(max_retries: u32, attempt: nat) -> nat
    decreases max_retries + 1 - attempt,
{
    if attempt == 0 || attempt > max_retries + 1 {
        0
    } else {
        match spec_after_attempt(max_retries, attempt, 0, false) {
            WebhookStep::RetryAfter { .. } => 1 + failed_deliveries(max_retries, attempt + 1),
            _ => 1,
        }
    }
}

/// When every delivery fails, exactly `max_retries + 1` are made: the number that
/// `attempts` reports.
pub proof fn lemma_all_failures_use_every_attempt(max_retries: u32, attempt: nat)
    requires
        1 <= attempt <= max_retries + 1,
    ensures
        failed_deliveries(max_retries, attempt) == max_retries + 2 - attempt,
    decreases max_retries + 1 - attempt,
{
    if attempt <= max_retries {
        lemma_all_failures_use_every_attempt(max_retries, attempt + 1);
    }
}

/// The states of a run executed in the background.
#[derive(Debug, Clone, Copy, PartialEq, Eq, Structural)]
pub enum RunStatus {
    Running,
    Completed,
    Failed,
}

/// What a background run's webhook reports.
pub struct WebhookPayload {
    pub run_id: u128,
    pub status: String,
    pub error: Option<String>,
    pub timestamp_micros: i64,
}

impl WebhookPayload {
    /// A payload stamped with the current time.
    pub fn new(run_id: u128, status: &str, error: Option<String>) -> (p: Self)
        ensures
            p.run_id == run_id,
            p.status@ == status@,
            p.error == error,
    {
        WebhookPayload { run_id, status: status.to_string(), error, timestamp_micros: now_micros() }
    }
}

/// How a background run ends: its final status, the error recorded, and the
/// webhook status to report when the run has a webhook.
pub struct RunSettlementPlan {
    pub status: RunStatus,
    pub error: Option<String>,
    pub webhook_status: Option<String>,
}

/// A run that succeeded is completed; one that failed is failed with its error. A
/// webhook, when the run has one, reports `completed` or `failed`.
pub fn settle_background_run(error: Option<String>, has_webhook: bool) -> (p: RunSettlementPlan)
    ensures
        p.status == (if error is None { RunStatus::Completed } else { RunStatus::Failed }),
        p.error == error,
        p.webhook_status is Some == has_webhook,
        has_webhook ==> p.webhook_status.unwrap()@ == (if error is None { "completed"@ } else { "failed"@ }),
{
    let ok = error.is_none();
    let status = if ok { RunStatus::Completed } else { RunStatus::Failed };
    let webhook_status = if has_webhook {
        if ok {
            Some(String::from_str("completed"))
        } else {
            Some(String::from_str("failed"))
        }
    } else {
        None
    };
    RunSettlementPlan { status, error, webhook_status }
}

/// Runs requests in the background and reports their end to their webhooks.
pub struct AsyncRunner<R, S> {
    run_repo: R,
    run_service: S,
    webhook_manager: WebhookManager,
}

impl<R, S> AsyncRunner<R, S> {
    #[verifier::type_invariant]
    spec fn manager_counts_fit(&self) -> bool {
        self.webhook_manager.max_retries < u32::MAX
    }

    pub closed spec fn parts(&self) -> (R, S, WebhookManager) {
        (self.run_repo, self.run_service, self.webhook_manager)
    }

    /// A runner whose webhooks are retried three times, waiting one second at first.
    pub fn new(run_repo: R, run_service: S) -> (a: Self)
        ensures
            a.parts().0 == run_repo,
            a.parts().1 == run_service,
            a.parts().2.max_retries == 3,
            a.parts().2.base_delay_ms == 1000,
    {
        AsyncRunner { run_repo, run_service, webhook_manager: WebhookManager::new(3, 1000) }
    }

    pub fn webhook_manager(&self) -> (m: &WebhookManager)
        ensures
            *m == self.parts().2,
    {
        &self.webhook_manager
    }

    /// The attempt count recorded with a run's webhook status: every attempt the
    /// manager allows, however many were made.
    pub fn recorded_webhook_attempts(&self) -> (n: u32)
        ensures
            n == self.parts().2.max_retries + 1,
    {
        proof {
            use_type_invariant(self);
        }
        self.webhook_manager.attempts()
    }
}

} // verus!
