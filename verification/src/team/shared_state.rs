//! The team's shared task state: the records that publishing an artifact or a
//! fact, recording a delegation's status, adding a blocker or a decision write;
//! and the actors under which team events are recorded.

use vstd::prelude::*;
use crate::clock::now_micros;
use crate::ids::new_uuid;
use crate::team::supervisor_tools::PublishScope;

verus! {

/// An artifact accepted into the shared state.
pub struct ArtifactRef {
    pub artifact_id: u128,
    pub scope: PublishScope,
    pub published_by: String,
    pub published_at_micros: i64,
}

/// A fact published to the shared state; its value by its JSON rendering.
pub struct PublishedFact {
    pub key: String,
    pub value_json: String,
    pub published_by: String,
    pub published_at_micros: i64,
}

/// The latest status of a delegation, as the shared state records it.
pub struct DelegationStatusEntry {
    pub delegation_id: u128,
    pub status: String,
    pub updated_at_micros: i64,
}

/// Something that blocks the team.
pub struct Blocker {
    pub blocker_id: u128,
    pub description: String,
    pub source: String,
    pub created_at_micros: i64,
}

/// A decision the team took.
pub struct Decision {
    pub decision_id: u128,
    pub description: String,
    pub decided_by: String,
    pub decided_at_micros: i64,
}

/// Writes the team's shared task state through its repository.
pub struct SharedTaskStateManager<R> {
    repo: R,
}

impl<R> SharedTaskStateManager<R> {
    pub closed spec fn repo_spec(&self) -> R {
        self.repo
    }

    pub fn new(repo: R) -> (m: Self)
        ensures
            m.repo_spec() == repo,
    {
        SharedTaskStateManager { repo }
    }

    pub fn repo(&self) -> (r: &R)
        ensures
            *r == self.repo_spec(),
    {
        &self.repo
    }

    /// The record of an artifact published now.
    pub fn artifact_ref(&self, artifact_id: u128, scope: PublishScope, published_by: &str) -> (a: ArtifactRef)
        ensures
            a.artifact_id == artifact_id,
            a.scope == scope,
            a.published_by@ == published_by@,
    {
        ArtifactRef { artifact_id, scope, published_by: published_by.to_string(), published_at_micros: now_micros() }
    }

    /// The record of a fact published now.
    pub fn fact(&self, key: &str, value_json: String, published_by: &str) -> (f: PublishedFact)
        ensures
            f.key@ == key@,
            f.value_json == value_json,
            f.published_by@ == published_by@,
    {
        PublishedFact { key: key.to_string(), value_json, published_by: published_by.to_string(), published_at_micros: now_micros() }
    }

    /// The record of a delegation's status, updated now.
    pub fn delegation_status(&self, delegation_id: u128, status: &str) -> (e: DelegationStatusEntry)
        ensures
            e.delegation_id == delegation_id,
            e.status@ == status@,
    {
        DelegationStatusEntry { delegation_id, status: status.to_string(), updated_at_micros: now_micros() }
    }

    /// A new blocker, with a fresh id, created now.
    pub fn blocker(&self, description: &str, source: &str) -> (b: Blocker)
        ensures
            b.description@ == description@,
            b.source@ == source@,
    {
        Blocker { blocker_id: new_uuid(), description: description.to_string(), source: source.to_string(), created_at_micros: now_micros() }
    }

    /// A new decision, with a fresh id, taken now.
    pub fn decision(&self, description: &str, decided_by: &str) -> (d: Decision)
        ensures
            d.description@ == description@,
            d.decided_by@ == decided_by@,
    {
        Decision { decision_id: new_uuid(), description: description.to_string(), decided_by: decided_by.to_string(), decided_at_micros: now_micros() }
    }
}

/// The kinds of team event.
#[derive(Debug, Clone, Copy, PartialEq, Eq, Structural)]
pub enum TeamEventType {
    TeamTaskReceived,
    TriageCompleted,
    ModeSelected,
    LeadAssigned,
    MemberActivated,
    DelegationCreated,
    DelegationAccepted,
    DelegationRejected,
    MemberResultReceived,
    MemberResultAccepted,
    MemberResultRejected,
    ArtifactPublished,
    FactPublished,
    BlockerAdded,
    BlockerResolved,
    ApprovalRequested,
    TeamBlocked,
    TeamUnblocked,
    TeamCompleted,
    TeamFailed,
}

/// Records team events through its repository.
pub struct TeamEventEmitter<R> {
    repo: R,
}

impl<R> TeamEventEmitter<R> {
    pub closed spec fn repo_spec(&self) -> R {
        self.repo
    }

    pub fn new(repo: R) -> (e: Self)
        ensures
            e.repo_spec() == repo,
    {
        TeamEventEmitter { repo }
    }

    /// The actor an event is recorded under: the system receives team tasks; the
    /// supervisor does everything else.
    pub fn actor(&self, t: TeamEventType) -> (a: &'static str)
        ensures
            a@ == (if t == TeamEventType::TeamTaskReceived { "system"@ } else { "supervisor"@ }),
    {
        match t {
            TeamEventType::TeamTaskReceived => "system",
            _ => "supervisor",
        }
    }

    /// Whether an event names the member it concerns among its related instances.
    pub fn names_member(&self, t: TeamEventType) -> (b: bool)
        ensures
            b == (t == TeamEventType::LeadAssigned || t == TeamEventType::MemberActivated
                || t == TeamEventType::DelegationCreated || t == TeamEventType::DelegationAccepted
                || t == TeamEventType::DelegationRejected || t == TeamEventType::MemberResultReceived
                || t == TeamEventType::MemberResultAccepted || t == TeamEventType::MemberResultRejected),
    {
        match t {
            TeamEventType::LeadAssigned | TeamEventType::MemberActivated | TeamEventType::DelegationCreated
            | TeamEventType::DelegationAccepted | TeamEventType::DelegationRejected | TeamEventType::MemberResultReceived
            | TeamEventType::MemberResultAccepted | TeamEventType::MemberResultRejected => true,
            _ => false,
        }
    }
}

/// A team event as it is recorded; its payload is rendered by the caller.
pub struct TeamEventRecord {
    pub id: u128,
    pub team_instance_id: u128,
    pub event_type: TeamEventType,
    pub timestamp_micros: i64,
    pub actor_ref: String,
    pub team_task_ref: Option<u128>,
    pub related_instance_refs: Vec<u128>,
    pub related_artifact_refs: Vec<u128>,
    pub causal_event_refs: Vec<u128>,
}

pub open spec fn spec_names_member(t: TeamEventType) -> bool {
    t == TeamEventType::LeadAssigned || t == TeamEventType::MemberActivated || t == TeamEventType::DelegationCreated
        || t == TeamEventType::DelegationAccepted || t == TeamEventType::DelegationRejected
        || t == TeamEventType::MemberResultReceived || t == TeamEventType::MemberResultAccepted
        || t == TeamEventType::MemberResultRejected
}

fn single(subject: Option<u128>, keep: bool) -> (v: Vec<u128>)
    ensures
        v@ == (if keep { match subject { Some(x) => seq![x], None => Seq::<u128>::empty() } } else { Seq::<u128>::empty() }),
{
    let mut v: Vec<u128> = Vec::new();
    if keep {
        match subject {
            Some(x) => { v.push(x); },
            None => {},
        }
    }
    assert(v@ =~= (if keep { match subject { Some(x) => seq![x], None => Seq::<u128>::empty() } } else { Seq::<u128>::empty() }));
    v
}

impl<R> TeamEventEmitter<R> {
    /// A new event of the team, with a fresh id, stamped now.
    pub fn emit(
        &self,
        team_instance_id: u128,
        event_type: TeamEventType,
        actor_ref: &str,
        team_task_ref: Option<u128>,
        related_instance_refs: Vec<u128>,
        related_artifact_refs: Vec<u128>,
        causal_event_refs: Vec<u128>,
    ) -> (e: TeamEventRecord)
        ensures
            e.team_instance_id == team_instance_id,
            e.event_type == event_type,
            e.actor_ref@ == actor_ref@,
            e.team_task_ref == team_task_ref,
            e.related_instance_refs == related_instance_refs,
            e.related_artifact_refs == related_artifact_refs,
            e.causal_event_refs == causal_event_refs,
    {
        TeamEventRecord {
            id: new_uuid(),
            team_instance_id,
            event_type,
            timestamp_micros: now_micros(),
            actor_ref: actor_ref.to_string(),
            team_task_ref,
            related_instance_refs,
            related_artifact_refs,
            causal_event_refs,
        }
    }

    /// The event of a kind about a team task: recorded under the kind's actor; the
    /// member it concerns (`subject`) among the related instances when the kind
    /// names a member; the artifact (`subject`) among the related artifacts when an
    /// artifact was published; with the events that caused it.
    pub fn event_for(
        &self,
        team_instance_id: u128,
        event_type: TeamEventType,
        task_id: u128,
        subject: Option<u128>,
        causal_event_refs: Vec<u128>,
    ) -> (e: TeamEventRecord)
        ensures
            e.team_instance_id == team_instance_id,
            e.event_type == event_type,
            e.actor_ref@ == (if event_type == TeamEventType::TeamTaskReceived { "system"@ } else { "supervisor"@ }),
            e.team_task_ref == Some(task_id),
            e.related_instance_refs@ == (if spec_names_member(event_type) {
                match subject { Some(x) => seq![x], None => Seq::<u128>::empty() }
            } else {
                Seq::<u128>::empty()
            }),
            e.related_artifact_refs@ == (if event_type == TeamEventType::ArtifactPublished {
                match subject { Some(x) => seq![x], None => Seq::<u128>::empty() }
            } else {
                Seq::<u128>::empty()
            }),
            e.causal_event_refs == causal_event_refs,
    {
        let actor = self.actor(event_type);
        let members = single(subject, self.names_member(event_type));
        let artifacts = single(subject, event_type == TeamEventType::ArtifactPublished);
        self.emit(team_instance_id, event_type, actor, Some(task_id), members, artifacts, causal_event_refs)
    }
}

} // verus!
