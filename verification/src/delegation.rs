//! Delegations: the packet handed to a member, the status changes that are
//! published on a delegation's stream, and the tasks a local member picks up.

use vstd::prelude::*;
use crate::ids::{uuid_string, uuid_text};
use crate::text::{chars_of, join3, spec_trim, trim};

verus! {

/// What a delegated member receives: the goal, the artifacts, context references,
/// constraints and key facts chosen for it, and instructions and a compact summary
/// when they say anything.
pub struct DelegationPacket {
    pub goal: String,
    pub selected_artifacts: Vec<String>,
    pub selected_context_refs: Vec<String>,
    pub constraints: Vec<String>,
    pub key_facts: Vec<String>,
    pub instructions: Option<String>,
    pub compact_summary: Option<String>,
}

/// A text that is kept only when it is not blank.
pub open spec fn non_blank(t: Option<Seq<char>>) -> Option<Seq<char>> {
    match t {
        Some(s) => if spec_trim(s).len() > 0 { Some(s) } else { None },
        None => None,
    }
}

fn keep_non_blank(t: Option<&str>) -> (r: Option<String>)
    ensures
        (match r { Some(s) => Some(s@), None => None }) == non_blank(match t { Some(s) => Some(s@), None => None }),
{
    match t {
        Some(s) => {
            let cs = chars_of(s);
            let tr = trim(cs.as_slice());
            if tr.len() > 0 {
                Some(s.to_string())
            } else {
                None
            }
        },
        None => None,
    }
}

/// Builds a delegation packet; blank instructions and summaries are left out.
pub fn build_delegation_packet(
    goal: &str,
    instructions: Option<&str>,
    selected_artifacts: Vec<String>,
    selected_context_refs: Vec<String>,
    constraints: Vec<String>,
    compact_summary: Option<&str>,
    key_facts: Vec<String>,
) -> (p: DelegationPacket)
    ensures
        p.goal@ == goal@,
        p.selected_artifacts == selected_artifacts,
        p.selected_context_refs == selected_context_refs,
        p.constraints == constraints,
        p.key_facts == key_facts,
        (match p.instructions { Some(s) => Some(s@), None => None }) == non_blank(
            match instructions { Some(s) => Some(s@), None => None },
        ),
        (match p.compact_summary { Some(s) => Some(s@), None => None }) == non_blank(
            match compact_summary { Some(s) => Some(s@), None => None },
        ),
{
    DelegationPacket {
        goal: goal.to_string(),
        selected_artifacts,
        selected_context_refs,
        constraints,
        key_facts,
        instructions: keep_non_blank(instructions),
        compact_summary: keep_non_blank(compact_summary),
    }
}

/// The stream on which a delegation's status changes are published.
pub fn delegation_stream_key(delegation_id: u128) -> (k: String)
    ensures
        k@ == "delegation:"@ + uuid_string(delegation_id) + ":status"@,
{
    let id = uuid_text(delegation_id);
    join3("delegation:", id.as_str(), ":status")
}

/// The status changes of a delegation that are published.
#[derive(Debug, Clone, Copy, PartialEq, Eq, Structural)]
pub enum DelegationChange {
    Rejected,
    Completed,
    Failed,
}

/// The event type under which a change is published.
pub fn change_event_type(c: DelegationChange) -> (s: &'static str)
    ensures
        s@ == match c {
            DelegationChange::Rejected => "rejected"@,
            DelegationChange::Completed => "completed"@,
            DelegationChange::Failed => "failed"@,
        },
{
    match c {
        DelegationChange::Rejected => "rejected",
        DelegationChange::Completed => "completed",
        DelegationChange::Failed => "failed",
    }
}

/// Whether a status change is published: only for a delegation that exists, whose
/// change the repository applied, when a stream bus is configured.
pub fn publishes_change(found: bool, applied: bool, bus_configured: bool) -> (r: bool)
    ensures
        r == (found && applied && bus_configured),
{
    found && applied && bus_configured
}

/// Whether a status change reports success: a missing delegation is not changed.
pub fn change_result(found: bool, applied: bool) -> (r: bool)
    ensures
        r == (found && applied),
{
    found && applied
}

/// Creates and moves delegations through their states, publishing the changes on a
/// stream bus when one is configured.
pub struct DelegationService<R, B> {
    repo: R,
    stream_bus: Option<B>,
}

impl<R, B> DelegationService<R, B> {
    pub closed spec fn parts(&self) -> (R, Option<B>) {
        (self.repo, self.stream_bus)
    }

    pub fn new(repo: R) -> (s: Self)
        ensures
            s.parts() == (repo, None::<B>),
    {
        DelegationService { repo, stream_bus: None }
    }

    /// The same service, publishing its changes on `stream_bus`.
    pub fn with_stream_bus(self, stream_bus: B) -> (s: Self)
        ensures
            s.parts() == (self.parts().0, Some(stream_bus)),
    {
        DelegationService { repo: self.repo, stream_bus: Some(stream_bus) }
    }

    /// Whether changes are published.
    pub fn has_stream_bus(&self) -> (b: bool)
        ensures
            b == self.parts().1 is Some,
    {
        self.stream_bus.is_some()
    }
}

/// The states of a delegation.
#[derive(Debug, Clone, Copy, PartialEq, Eq, Structural)]
pub enum DelegationStatus {
    Pending,
    Accepted,
    Rejected,
    Completed,
    Failed,
}

/// What a local member reads of one of its delegations.
pub struct DelegationRecord {
    pub id: u128,
    pub task_id: u128,
    pub status: DelegationStatus,
    pub goal: Option<String>,
    pub instructions: Option<String>,
    pub created_at_micros: i64,
}

/// A task that a member can work on.
pub struct MemberTask {
    pub delegation_id: u128,
    pub task_id: u128,
    pub goal: String,
    pub instructions: Option<String>,
    pub created_at_micros: i64,
}

pub open spec fn is_open_delegation(d: DelegationRecord) -> bool {
    (d.status == DelegationStatus::Pending || d.status == DelegationStatus::Accepted) && d.goal is Some
}

/// The tasks a member picks up: its pending and accepted delegations that carry a
/// goal, in order.
pub open spec fn open_tasks(ds: Seq<DelegationRecord>) -> Seq<(u128, u128, Seq<char>)>
    decreases ds.len(),
{
    if ds.len() == 0 {
        seq![]
    } else {
        open_tasks(ds.drop_last()) + if is_open_delegation(ds.last()) {
            seq![(ds.last().id, ds.last().task_id, ds.last().goal.unwrap()@)]
        } else {
            seq![]
        }
    }
}

pub open spec fn task_view(t: MemberTask) -> (u128, u128, Seq<char>) {
    (t.delegation_id, t.task_id, t.goal@)
}

/// Picks the tasks out of a member's delegations.
pub fn poll_member_tasks(delegations: &Vec<DelegationRecord>) -> (ts: Vec<MemberTask>)
    ensures
        ts@.map_values(|t: MemberTask| task_view(t)) == open_tasks(delegations@),
{
    let mut ts: Vec<MemberTask> = Vec::new();
    let mut i: usize = 0;
    while i < delegations.len()
        invariant
            i <= delegations@.len(),
            ts@.map_values(|t: MemberTask| task_view(t)) == open_tasks(delegations@.take(i as int)),
        decreases delegations@.len() - i,
    {
        let d = &delegations[i];
        assert(delegations@.take(i + 1).drop_last() =~= delegations@.take(i as int));
        let open = match d.status {
            DelegationStatus::Pending | DelegationStatus::Accepted => true,
            _ => false,
        };
        if open {
            match &d.goal {
                Some(g) => {
                    let instructions = match &d.instructions {
                        Some(s) => Some(s.clone()),
                        None => None,
                    };
                    ts.push(MemberTask {
                        delegation_id: d.id,
                        task_id: d.task_id,
                        goal: g.clone(),
                        instructions,
                        created_at_micros: d.created_at_micros,
                    });
                },
                None => {},
            }
        }
        assert(ts@.map_values(|t: MemberTask| task_view(t)) =~= open_tasks(delegations@.take(i + 1)));
        i = i + 1;
    }
    assert(delegations@.take(delegations@.len() as int) =~= delegations@);
    ts
}

/// A member's health as a local member reports it: healthy, with no task counts.
pub struct MemberHealthReport {
    pub member_id: u128,
    pub is_healthy: bool,
    pub active_tasks: usize,
    pub completed_tasks: usize,
    pub failed_tasks: usize,
}

/// A member that runs in this process and reads its delegations from the repository.
pub struct LocalMemberAgent<R> {
    member_id: u128,
    delegation_repo: R,
    agent_instance_repo: R,
}

impl<R> LocalMemberAgent<R> {
    pub closed spec fn parts(&self) -> (u128, R, R) {
        (self.member_id, self.delegation_repo, self.agent_instance_repo)
    }

    pub fn new(member_id: u128, delegation_repo: R, agent_instance_repo: R) -> (a: Self)
        ensures
            a.parts() == (member_id, delegation_repo, agent_instance_repo),
    {
        LocalMemberAgent { member_id, delegation_repo, agent_instance_repo }
    }

    /// The member's health: always healthy, with no counts kept.
    pub fn health_check(&self) -> (h: MemberHealthReport)
        ensures
            h.member_id == self.parts().0,
            h.is_healthy,
            h.active_tasks == 0 && h.completed_tasks == 0 && h.failed_tasks == 0,
    {
        MemberHealthReport { member_id: self.member_id, is_healthy: true, active_tasks: 0, completed_tasks: 0, failed_tasks: 0 }
    }

    /// A local member never grants itself more time.
    pub fn request_extension(&self, seconds: u32) -> (granted: bool)
        ensures
            !granted,
    {
        false
    }
}

} // verus!
