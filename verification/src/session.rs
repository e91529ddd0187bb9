//! Sessions and their compaction jobs: which sessions may chat or be compacted,
//! and the registry of in-flight compactions whose cancellation tokens an abort or
//! a delete cancels.

use vstd::prelude::*;
use std::collections::HashMap;
use crate::clock::now_micros;
use crate::ids::new_uuid;

verus! {

/// The states of a session.
#[derive(Debug, Clone, Copy, PartialEq, Eq, Structural)]
pub enum SessionStatus {
    Active,
    Compacting,
    Terminated,
}

/// Whether a session can be compacted: an active or compacting one.
pub open spec fn spec_can_compact(s: SessionStatus) -> bool {
    s == SessionStatus::Active || s == SessionStatus::Compacting
}

pub fn can_compact(s: SessionStatus) -> (r: bool)
    ensures
        r == spec_can_compact(s),
{
    match s {
        SessionStatus::Active | SessionStatus::Compacting => true,
        SessionStatus::Terminated => false,
    }
}

/// Why a session request was refused.
#[derive(Debug, Clone, Copy, PartialEq, Eq, Structural)]
pub enum SessionError {
    NotFound,
    NotAvailable(SessionStatus),
    CannotCompact(SessionStatus),
    NotCompacting(SessionStatus),
}

/// Where a chat message goes: the session's agent instance, or the session itself
/// when none is bound yet. Only an available session accepts messages.
pub fn chat_target(session_id: u128, available: bool, status: SessionStatus, agent_instance_id: Option<u128>) -> (r: Result<u128, SessionError>)
    ensures
        !available ==> r == Err::<u128, SessionError>(SessionError::NotAvailable(status)),
        available ==> r == Ok::<u128, SessionError>(match agent_instance_id { Some(a) => a, None => session_id }),
{
    if !available {
        return Err(SessionError::NotAvailable(status));
    }
    match agent_instance_id {
        Some(a) => Ok(a),
        None => Ok(session_id),
    }
}

/// The in-flight compaction jobs, one per session, each with its cancellation token.
pub struct CompactionRegistry<T> {
    jobs: HashMap<u128, T>,
}

impl<T> CompactionRegistry<T> {
    /// The registry as a map from session to token.
    pub closed spec fn view_map(&self) -> Map<u128, T> {
        self.jobs@
    }

    pub fn new() -> (r: Self)
        ensures
            r.view_map() == Map::<u128, T>::empty(),
    {
        CompactionRegistry { jobs: HashMap::new() }
    }

    /// Takes the session's job out of the registry, giving back its token.
    pub fn remove(&mut self, session_id: u128) -> (t: Option<T>)
        ensures
            final(self).view_map() == old(self).view_map().remove(session_id),
            old(self).view_map().contains_key(session_id) <==> t is Some,
            t matches Some(tok) ==> tok == old(self).view_map()[session_id],
    {
        broadcast use vstd::std_specs::hash::group_hash_axioms;
        self.jobs.remove(&session_id)
    }

    /// Registers a session's job with its token, replacing (and giving back) the
    /// token of a job it already had.
    pub fn register(&mut self, session_id: u128, token: T) -> (replaced: Option<T>)
        ensures
            final(self).view_map() == old(self).view_map().insert(session_id, token),
            old(self).view_map().contains_key(session_id) <==> replaced is Some,
            replaced matches Some(tok) ==> tok == old(self).view_map()[session_id],
    {
        broadcast use vstd::std_specs::hash::group_hash_axioms;
        self.jobs.insert(session_id, token)
    }

    /// Whether the session has a job in flight.
    pub fn has_job(&self, session_id: u128) -> (b: bool)
        ensures
            b == self.view_map().contains_key(session_id),
    {
        broadcast use vstd::std_specs::hash::group_hash_axioms;
        self.jobs.contains_key(&session_id)
    }
}

/// Sessions in front of their repository, with the registry of compaction jobs.
pub struct SessionService<R, T> {
    repo: R,
    active_jobs: CompactionRegistry<T>,
}

/// What starting a compaction answers.
pub struct CompactJobResponse {
    pub job_id: u128,
    pub status: String,
    pub session_id: u128,
}

/// What aborting a compaction answers.
pub struct CompactionAbortResponse {
    pub job_id: Option<u128>,
    pub status: String,
    pub session_id: u128,
}

impl<R, T> SessionService<R, T> {
    pub closed spec fn repo_spec(&self) -> R {
        self.repo
    }

    /// The in-flight jobs by session.
    pub closed spec fn jobs(&self) -> Map<u128, T> {
        self.active_jobs.view_map()
    }

    pub fn new(repo: R) -> (s: Self)
        ensures
            s.repo_spec() == repo,
            s.jobs() == Map::<u128, T>::empty(),
    {
        SessionService { repo, active_jobs: CompactionRegistry::new() }
    }

    /// Starts compacting a session in `status`: refused unless it is active or
    /// compacting, with nothing registered and nothing written; otherwise the job's
    /// token is registered first (replacing an earlier one), and then the session
    /// is marked compacting and given this job.
    pub fn begin_compaction(&mut self, session_id: u128, status: SessionStatus, job_id: u128, token: T) -> (r: Result<(CompactJobResponse, Vec<SessionRepoCall>), SessionError>)
        ensures
            final(self).repo_spec() == old(self).repo_spec(),
            !spec_can_compact(status) ==> r is Err && r->Err_0 == SessionError::CannotCompact(status)
                && final(self).jobs() == old(self).jobs(),
            spec_can_compact(status) ==> r is Ok && final(self).jobs() == old(self).jobs().insert(session_id, token),
            r matches Ok((resp, calls)) ==> resp.job_id == job_id && resp.session_id == session_id && resp.status@ == "compacting"@
                && calls@ == seq![SessionRepoCall::UpdateStatus(SessionStatus::Compacting), SessionRepoCall::SetCompactionJob(Some(job_id))],
    {
        if !can_compact(status) {
            return Err(SessionError::CannotCompact(status));
        }
        let _ = self.active_jobs.register(session_id, token);
        let mut calls: Vec<SessionRepoCall> = Vec::new();
        calls.push(SessionRepoCall::UpdateStatus(SessionStatus::Compacting));
        calls.push(SessionRepoCall::SetCompactionJob(Some(job_id)));
        assert(calls@ =~= seq![SessionRepoCall::UpdateStatus(SessionStatus::Compacting), SessionRepoCall::SetCompactionJob(Some(job_id))]);
        Ok((CompactJobResponse { job_id, status: String::from_str("compacting"), session_id }, calls))
    }

    /// Aborts a session's compaction: refused unless it is compacting, with the
    /// registry left as it is and nothing written; otherwise its job leaves the
    /// registry, its token (if registered) is handed back to be cancelled, and the
    /// session is marked active again with no compaction job. The response names
    /// the job the session had.
    pub fn abort_compaction(&mut self, session_id: u128, status: SessionStatus, job_id: Option<u128>) -> (r: Result<(Option<T>, CompactionAbortResponse, Vec<SessionRepoCall>), SessionError>)
        ensures
            final(self).repo_spec() == old(self).repo_spec(),
            status != SessionStatus::Compacting ==> (r matches Err(e) && e == SessionError::NotCompacting(status)),
            status != SessionStatus::Compacting ==> final(self).jobs() == old(self).jobs(),
            status == SessionStatus::Compacting ==> r is Ok && final(self).jobs() == old(self).jobs().remove(session_id),
            r matches Ok((tok, resp, calls)) ==> (tok is Some <==> old(self).jobs().contains_key(session_id))
                && (tok matches Some(t) ==> t == old(self).jobs()[session_id])
                && resp.job_id == job_id && resp.session_id == session_id && resp.status@ == "aborted"@
                && calls@ == seq![SessionRepoCall::UpdateStatus(SessionStatus::Active), SessionRepoCall::SetCompactionJob(None)],
    {
        if status != SessionStatus::Compacting {
            return Err(SessionError::NotCompacting(status));
        }
        let tok = self.take_job(session_id);
        let calls = back_to_active();
        Ok((tok, CompactionAbortResponse { job_id, status: String::from_str("aborted"), session_id }, calls))
    }

    /// Ends a session's compaction once its work completed: its job leaves the
    /// registry, and the session is marked active again with no compaction job.
    pub fn finish_compaction(&mut self, session_id: u128) -> (r: (Option<T>, Vec<SessionRepoCall>))
        ensures
            final(self).repo_spec() == old(self).repo_spec(),
            final(self).jobs() == old(self).jobs().remove(session_id),
            r.0 is Some <==> old(self).jobs().contains_key(session_id),
            r.1@ == seq![SessionRepoCall::UpdateStatus(SessionStatus::Active), SessionRepoCall::SetCompactionJob(None)],
    {
        let tok = self.take_job(session_id);
        (tok, back_to_active())
    }

    /// Takes a session's job out of the registry (before the session is deleted,
    /// or when its compaction finishes), giving back its token.
    pub fn take_job(&mut self, session_id: u128) -> (t: Option<T>)
        ensures
            final(self).repo_spec() == old(self).repo_spec(),
            final(self).jobs() == old(self).jobs().remove(session_id),
            t is Some <==> old(self).jobs().contains_key(session_id),
            t matches Some(tok) ==> tok == old(self).jobs()[session_id],
    {
        self.active_jobs.remove(session_id)
    }
}

fn back_to_active() -> (calls: Vec<SessionRepoCall>)
    ensures
        calls@ == seq![SessionRepoCall::UpdateStatus(SessionStatus::Active), SessionRepoCall::SetCompactionJob(None)],
{
    let mut calls: Vec<SessionRepoCall> = Vec::new();
    calls.push(SessionRepoCall::UpdateStatus(SessionStatus::Active));
    calls.push(SessionRepoCall::SetCompactionJob(None));
    assert(calls@ =~= seq![SessionRepoCall::UpdateStatus(SessionStatus::Active), SessionRepoCall::SetCompactionJob(None)]);
    calls
}

/// A call that compacting or deleting a session makes to the session repository.
#[derive(Debug, Clone, Copy, PartialEq, Eq, Structural)]
pub enum SessionRepoCall {
    UpdateStatus(SessionStatus),
    SetCompactionJob(Option<u128>),
    Delete,
}

impl<R, T> SessionService<R, T> {
    /// Deletes a session: its compaction job, if any, leaves the registry and its
    /// token is handed back to be cancelled; then the session is deleted in one
    /// call, without its status being updated first.
    pub fn delete_session(&mut self, session_id: u128) -> (r: (Option<T>, Vec<SessionRepoCall>))
        ensures
            final(self).repo_spec() == old(self).repo_spec(),
            final(self).jobs() == old(self).jobs().remove(session_id),
            r.0 is Some <==> old(self).jobs().contains_key(session_id),
            r.0 matches Some(tok) ==> tok == old(self).jobs()[session_id],
            r.1@ == seq![SessionRepoCall::Delete],
    {
        let tok = self.take_job(session_id);
        let mut calls: Vec<SessionRepoCall> = Vec::new();
        calls.push(SessionRepoCall::Delete);
        assert(calls@ =~= seq![SessionRepoCall::Delete]);
        (tok, calls)
    }
}

/// Starting a compaction and then aborting it hands back exactly the token that
/// was registered and leaves no job for the session.
pub proof fn lemma_abort_undoes_begin<T>(jobs: Map<u128, T>, session_id: u128, token: T)
    ensures
        jobs.insert(session_id, token).remove(session_id) == jobs.remove(session_id),
        jobs.insert(session_id, token).contains_key(session_id),
        jobs.insert(session_id, token)[session_id] == token,
{
    assert(jobs.insert(session_id, token).remove(session_id) =~= jobs.remove(session_id));
}

/// A session: who owns it, which agent definition it runs, the instance bound to
/// it (if any), its status, title and metadata (JSON), and its compaction job.
pub struct Session {
    pub id: u128,
    pub tenant_id: u128,
    pub agent_definition_id: u128,
    pub agent_instance_id: Option<u128>,
    pub status: SessionStatus,
    pub title: Option<String>,
    pub metadata_json: String,
    pub active_compaction_job_id: Option<u128>,
    pub created_at_micros: i64,
    pub updated_at_micros: i64,
}

/// A new active session with a fresh id, created now, bound to no instance yet,
/// with empty metadata (`{}`) when none is given.
pub fn new_session(tenant_id: u128, agent_definition_id: u128, title: Option<String>, metadata_json: Option<String>) -> (s: Session)
    ensures
        s.tenant_id == tenant_id,
        s.agent_definition_id == agent_definition_id,
        s.agent_instance_id is None,
        s.status == SessionStatus::Active,
        s.title == title,
        s.metadata_json@ == (match metadata_json { Some(m) => m@, None => "{}"@ }),
        s.active_compaction_job_id is None,
        s.created_at_micros == s.updated_at_micros,
{
    let now = now_micros();
    let metadata = match metadata_json {
        Some(m) => m,
        None => String::from_str("{}"),
    };
    Session {
        id: new_uuid(),
        tenant_id,
        agent_definition_id,
        agent_instance_id: None,
        status: SessionStatus::Active,
        title,
        metadata_json: metadata,
        active_compaction_job_id: None,
        created_at_micros: now,
        updated_at_micros: now,
    }
}

} // verus!
