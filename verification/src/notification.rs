//! Review notifications: the hooks a notification service sends to, and which
//! notice the memory pipeline sends after a gate decision.

use vstd::prelude::*;
use crate::gating::GateDecisionType;

verus! {

/// Where notifications go: a webhook URL, or the server-sent event stream.
pub enum NotificationHook {
    Webhook(String),
    ServerSentEvents,
}

pub open spec fn hook_view(h: NotificationHook) -> Option<Seq<char>> {
    match h {
        NotificationHook::Webhook(u) => Some(u@),
        NotificationHook::ServerSentEvents => None,
    }
}

/// Sends review events to its hooks in the order they were added.
pub struct NotificationService {
    hooks: Vec<NotificationHook>,
    sse: bool,
}

impl Default for NotificationService {
    /// The same as `new`: no hooks and no event stream.
    fn default() -> (s: Self)
        ensures
            s.hooks() == Seq::<Option<Seq<char>>>::empty(),
            !s.has_sse(),
    {
        NotificationService::new()
    }
}

impl NotificationService {
    /// The hooks, in order: a webhook's URL, or `None` for the event stream.
    pub closed spec fn hooks(&self) -> Seq<Option<Seq<char>>> {
        self.hooks@.map_values(|h: NotificationHook| hook_view(h))
    }

    pub closed spec fn has_sse(&self) -> bool {
        self.sse
    }

    pub fn new() -> (s: Self)
        ensures
            s.hooks() == Seq::<Option<Seq<char>>>::empty(),
            !s.has_sse(),
    {
        let s = NotificationService { hooks: Vec::new(), sse: false };
        assert(s.hooks() =~= Seq::<Option<Seq<char>>>::empty());
        s
    }

    /// The same service, also posting to the webhook at `url`.
    pub fn with_webhook_hook(self, url: String) -> (s: Self)
        ensures
            s.hooks() == self.hooks().push(Some(url@)),
            s.has_sse() == self.has_sse(),
    {
        let mut hooks = self.hooks;
        let ghost before = hooks@;
        let ghost u = url@;
        hooks.push(NotificationHook::Webhook(url));
        let s = NotificationService { hooks, sse: self.sse };
        assert(s.hooks() =~= before.map_values(|h: NotificationHook| hook_view(h)).push(Some(u)));
        s
    }

    /// The same service, also streaming events to subscribers.
    pub fn with_sse_hook(self) -> (s: Self)
        ensures
            s.hooks() == self.hooks().push(None),
            s.has_sse(),
    {
        let mut hooks = self.hooks;
        let ghost before = hooks@;
        hooks.push(NotificationHook::ServerSentEvents);
        let s = NotificationService { hooks, sse: true };
        assert(s.hooks() =~= before.map_values(|h: NotificationHook| hook_view(h)).push(None));
        s
    }

    /// Whether subscribers can follow the events (only with the event stream hook).
    pub fn can_subscribe(&self) -> (b: bool)
        ensures
            b == self.has_sse(),
    {
        self.sse
    }

    /// The hooks an event is sent to, in order.
    pub fn hook_list(&self) -> (h: &Vec<NotificationHook>)
        ensures
            h@.map_values(|x: NotificationHook| hook_view(x)) == self.hooks(),
    {
        &self.hooks
    }
}

/// The review notices.
#[derive(Debug, Clone, Copy, PartialEq, Eq, Structural)]
pub enum ReviewNotice {
    CandidateNeedsReview,
    CandidateCreated,
    CandidateMerged { target_id: u128 },
    CandidateRejected { candidate_id: u128 },
}

/// The notice the memory pipeline sends after a gate decision: a review request,
/// a creation, a merge into its target (only when there is one), or a rejection.
pub fn pipeline_notice(decision: GateDecisionType, target_entry_id: Option<u128>, candidate_id: u128) -> (n: Option<ReviewNotice>)
    ensures
        n == match decision {
            GateDecisionType::Review => Some(ReviewNotice::CandidateNeedsReview),
            GateDecisionType::Approve => Some(ReviewNotice::CandidateCreated),
            GateDecisionType::Merge => match target_entry_id {
                Some(t) => Some(ReviewNotice::CandidateMerged { target_id: t }),
                None => None,
            },
            GateDecisionType::Reject => Some(ReviewNotice::CandidateRejected { candidate_id }),
        },
{
    match decision {
        GateDecisionType::Review => Some(ReviewNotice::CandidateNeedsReview),
        GateDecisionType::Approve => Some(ReviewNotice::CandidateCreated),
        GateDecisionType::Merge => match target_entry_id {
            Some(t) => Some(ReviewNotice::CandidateMerged { target_id: t }),
            None => None,
        },
        GateDecisionType::Reject => Some(ReviewNotice::CandidateRejected { candidate_id }),
    }
}

/// Gates memory candidates and notifies about the decisions when notifications
/// are configured.
pub struct MemoryPipelineService<G, N> {
    gating: G,
    notification: Option<N>,
}

impl<G, N> MemoryPipelineService<G, N> {
    pub closed spec fn parts(&self) -> (G, Option<N>) {
        (self.gating, self.notification)
    }

    pub fn new(gating: G, notification: Option<N>) -> (s: Self)
        ensures
            s.parts() == (gating, notification),
    {
        MemoryPipelineService { gating, notification }
    }

    /// Whether decisions are notified.
    pub fn notifies(&self) -> (b: bool)
        ensures
            b == self.parts().1 is Some,
    {
        self.notification.is_some()
    }
}

} // verus!
