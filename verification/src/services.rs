//! The services that stand in front of one or more repositories. Each holds the
//! repository handles it was built with (of a type `R` that the caller chooses);
//! the calls into the repositories are made by the caller through those handles.

use vstd::prelude::*;

verus! {

/// Creates, lists, reads and deletes agent definitions.
pub struct AgentDefinitionService<R> {
    repo: R,
}

impl<R> AgentDefinitionService<R> {
    pub closed spec fn repo_spec(&self) -> R {
        self.repo
    }

    pub fn new(repo: R) -> (s: Self)
        ensures
            s.repo_spec() == repo,
    {
        AgentDefinitionService { repo }
    }

    /// The repository the service reads and writes.
    pub fn repo(&self) -> (r: &R)
        ensures
            *r == self.repo_spec(),
    {
        &self.repo
    }
}

/// Creates, lists, reads, deletes agent instances and sets their status.
pub struct AgentInstanceService<R> {
    repo: R,
}

impl<R> AgentInstanceService<R> {
    pub closed spec fn repo_spec(&self) -> R {
        self.repo
    }

    pub fn new(repo: R) -> (s: Self)
        ensures
            s.repo_spec() == repo,
    {
        AgentInstanceService { repo }
    }

    /// The repository the service reads and writes.
    pub fn repo(&self) -> (r: &R)
        ensures
            *r == self.repo_spec(),
    {
        &self.repo
    }
}

/// Lists, reads and cancels tasks.
pub struct TaskService<R> {
    repo: R,
}

impl<R> TaskService<R> {
    pub closed spec fn repo_spec(&self) -> R {
        self.repo
    }

    pub fn new(repo: R) -> (s: Self)
        ensures
            s.repo_spec() == repo,
    {
        TaskService { repo }
    }

    /// The repository the service reads and writes.
    pub fn repo(&self) -> (r: &R)
        ensures
            *r == self.repo_spec(),
    {
        &self.repo
    }
}

/// Creates, lists, reads and resolves escalations.
pub struct EscalationService<R> {
    escalation_repo: R,
}

impl<R> EscalationService<R> {
    pub closed spec fn repo_spec(&self) -> R {
        self.escalation_repo
    }

    pub fn new(escalation_repo: R) -> (s: Self)
        ensures
            s.repo_spec() == escalation_repo,
    {
        EscalationService { escalation_repo }
    }

    /// The repository the service reads and writes.
    pub fn repo(&self) -> (r: &R)
        ensures
            *r == self.repo_spec(),
    {
        &self.escalation_repo
    }
}

/// Manages capability profiles and their bindings to agent definitions.
pub struct CapabilityService<R> {
    profile_repo: R,
    binding_repo: R,
}

impl<R> CapabilityService<R> {
    pub closed spec fn repos(&self) -> (R, R) {
        (self.profile_repo, self.binding_repo)
    }

    pub fn new(profile_repo: R, binding_repo: R) -> (s: Self)
        ensures
            s.repos() == (profile_repo, binding_repo),
    {
        CapabilityService { profile_repo, binding_repo }
    }
}

/// The rationale recorded with a capability resolved through a direct binding.
pub fn direct_binding_rationale() -> (s: &'static str)
    ensures
        s@ == "Direct binding match"@,
{
    "Direct binding match"
}

/// The kind of artifact that holds a todo document.
pub const TODO_DOCUMENT_KIND: &'static str = "todo_document";

/// The MIME type of JSON documents.
pub const JSON_MIME_TYPE: &'static str = "application/json";

/// Stores artifacts.
pub struct ArtifactService<R> {
    repo: R,
}

impl<R> ArtifactService<R> {
    pub closed spec fn repo_spec(&self) -> R {
        self.repo
    }

    pub fn new(repo: R) -> (s: Self)
        ensures
            s.repo_spec() == repo,
    {
        ArtifactService { repo }
    }

    /// The repository the service reads and writes.
    pub fn repo(&self) -> (r: &R)
        ensures
            *r == self.repo_spec(),
    {
        &self.repo
    }

    /// The MIME type that JSON documents are stored with.
    pub fn json_mime_type(&self) -> (s: &'static str)
        ensures
            s@ == "application/json"@,
    {
        JSON_MIME_TYPE
    }
}

/// The kind of artifact that offloaded tool output is stored as.
pub const TOOL_OUTPUT_ARTIFACT_KIND: &'static str = "tool_output";

/// The MIME type of offloaded tool output.
pub const TEXT_MIME_TYPE: &'static str = "text/plain";

/// Stores offloaded tool output as private text artifacts.
pub struct HarnessOffloadArtifactStore<A> {
    artifact_service: A,
}

impl<A> HarnessOffloadArtifactStore<A> {
    pub closed spec fn service(&self) -> A {
        self.artifact_service
    }

    pub fn new(artifact_service: A) -> (s: Self)
        ensures
            s.service() == artifact_service,
    {
        HarnessOffloadArtifactStore { artifact_service }
    }

    /// The artifact service that holds the output.
    pub fn artifact_service(&self) -> (a: &A)
        ensures
            *a == self.service(),
    {
        &self.artifact_service
    }

    /// The kind and MIME type that one tool output is written with.
    pub fn output_format(&self) -> (f: (&'static str, &'static str))
        ensures
            f.0@ == "tool_output"@,
            f.1@ == "text/plain"@,
    {
        (TOOL_OUTPUT_ARTIFACT_KIND, TEXT_MIME_TYPE)
    }
}

/// Holds the tool registry, and the artifact service and virtual file system that
/// the built-in tools use, when they are configured.
pub struct ToolService<G, A, V> {
    registry: G,
    artifact_service: Option<A>,
    vfs: Option<V>,
}

impl<G, A, V> ToolService<G, A, V> {
    pub closed spec fn parts(&self) -> (G, Option<A>, Option<V>) {
        (self.registry, self.artifact_service, self.vfs)
    }

    /// A tool service over an empty registry, without built-in tools.
    pub fn new(registry: G) -> (s: Self)
        ensures
            s.parts() == (registry, None::<A>, None::<V>),
    {
        ToolService { registry, artifact_service: None, vfs: None }
    }

    /// A tool service whose built-in tools use this artifact service and file system.
    pub fn new_with_builtins(registry: G, artifact_service: A, vfs: V) -> (s: Self)
        ensures
            s.parts() == (registry, Some(artifact_service), Some(vfs)),
    {
        ToolService { registry, artifact_service: Some(artifact_service), vfs: Some(vfs) }
    }

    pub fn registry(&self) -> (r: &G)
        ensures
            *r == self.parts().0,
    {
        &self.registry
    }

    pub fn artifact_service(&self) -> (r: Option<&A>)
        ensures
            r is Some <==> self.parts().1 is Some,
            r matches Some(a) ==> Some(*a) == self.parts().1,
    {
        match &self.artifact_service {
            Some(a) => Some(a),
            None => None,
        }
    }

    pub fn vfs(&self) -> (r: Option<&V>)
        ensures
            r is Some <==> self.parts().2 is Some,
            r matches Some(v) ==> Some(*v) == self.parts().2,
    {
        match &self.vfs {
            Some(v) => Some(v),
            None => None,
        }
    }
}

/// The legacy memory repository, the v1 memory repository and the embedding
/// generator (if one is configured).
pub struct MemoryService<R, E> {
    repo: R,
    repo_v1: R,
    embedding: Option<E>,
}

impl<R, E> MemoryService<R, E> {
    pub closed spec fn parts(&self) -> (R, R, Option<E>) {
        (self.repo, self.repo_v1, self.embedding)
    }

    pub fn new(repo: R, repo_v1: R, embedding: Option<E>) -> (s: Self)
        ensures
            s.parts() == (repo, repo_v1, embedding),
    {
        MemoryService { repo, repo_v1, embedding }
    }

    /// The legacy repository.
    pub fn repo(&self) -> (r: &R)
        ensures
            *r == self.parts().0,
    {
        &self.repo
    }

    /// Whether entries get embeddings and semantic search is possible.
    pub fn has_embedding(&self) -> (b: bool)
        ensures
            b == self.parts().2 is Some,
    {
        self.embedding.is_some()
    }
}

/// How a semantic search is run: hybrid (the default) or vector-only, and how many
/// results (ten by default).
pub fn search_plan(hybrid: Option<bool>, limit: Option<i64>) -> (p: (bool, i64))
    ensures
        p.0 == match hybrid { Some(h) => h, None => true },
        p.1 == match limit { Some(l) => l, None => 10 },
{
    let h = match hybrid {
        Some(h) => h,
        None => true,
    };
    let l = match limit {
        Some(l) => l,
        None => 10,
    };
    (h, l)
}

/// Candidate counts by status are reported only when there are some.
pub fn counts_or_none(counts: Vec<(String, i64)>) -> (r: Option<Vec<(String, i64)>>)
    ensures
        counts@.len() == 0 ==> r is None,
        counts@.len() > 0 ==> r == Some(counts),
{
    if counts.len() == 0 {
        None
    } else {
        Some(counts)
    }
}

/// The definition, instance, member, task, shared state and event repositories of teams.
pub struct TeamService<R> {
    definition_repo: R,
    instance_repo: R,
    member_repo: R,
    team_task_repo: R,
    shared_state_repo: R,
    team_event_repo: R,
}

impl<R> TeamService<R> {
    pub closed spec fn repos(&self) -> (R, R, R, R, R, R) {
        (self.definition_repo, self.instance_repo, self.member_repo, self.team_task_repo, self.shared_state_repo, self.team_event_repo)
    }

    pub fn new(
        definition_repo: R,
        instance_repo: R,
        member_repo: R,
        team_task_repo: R,
        shared_state_repo: R,
        team_event_repo: R,
    ) -> (s: Self)
        ensures
            s.repos() == (definition_repo, instance_repo, member_repo, team_task_repo, shared_state_repo, team_event_repo),
    {
        TeamService { definition_repo, instance_repo, member_repo, team_task_repo, shared_state_repo, team_event_repo }
    }
}

} // verus!
