//! The run service's decisions: when a run in a follow-up chain starts, how a run
//! that ended settles its task and instance, and the request that a follow-up
//! carries. The caller performs the repository, kernel and event work in between.

use vstd::prelude::*;
use crate::recovery::AgentInstanceStatus;

verus! {

/// How deep a chain of follow-up runs may go: runs at depth 0, 1 and 2 execute.
pub const MAX_FOLLOWUP_DEPTH: usize = 3;

/// A request to run an agent instance.
pub struct RunRequest {
    pub goal: String,
    pub instructions: Option<String>,
    pub input_artifacts: Vec<String>,
    pub external_context_refs: Vec<String>,
    pub constraints: Vec<String>,
    pub execution_mode: Option<String>,
    pub expected_outputs: Vec<String>,
    pub idempotency_key: Option<String>,
    pub webhook_url: Option<String>,
    pub async_execution: bool,
    pub agent_instance_id: Option<u128>,
}

/// The states of the task that a run creates.
#[derive(Debug, Clone, Copy, PartialEq, Eq, Structural)]
pub enum RunTaskStatus {
    Running,
    Completed,
    Failed,
}

pub open spec fn spec_starts_run(depth: nat) -> bool {
    depth < MAX_FOLLOWUP_DEPTH
}

/// Whether a run at this depth of a follow-up chain executes; deeper ones are
/// discarded without error.
pub fn starts_run(depth: usize) -> (r: bool)
    ensures
        r == spec_starts_run(depth as nat),
{
    depth < MAX_FOLLOWUP_DEPTH
}

/// How a run that ended settles its task and instance: the task's final status, the
/// instance's new status, the status recorded in the checkpoint, and the error code
/// sent to the event stream when it failed.
pub struct RunSettlement {
    pub task_status: RunTaskStatus,
    pub instance_status: AgentInstanceStatus,
    pub checkpoint_status: String,
    pub error_code: Option<String>,
}

pub open spec fn settlement_checkpoint_status(succeeded: bool) -> Seq<char> {
    if succeeded { "READY"@ } else { "FAILED"@ }
}

/// A successful run completes its task and leaves the instance ready; a failed one
/// fails both and reports `EXECUTION_ERROR`.
pub fn settle_run(succeeded: bool) -> (s: RunSettlement)
    ensures
        s.task_status == (if succeeded { RunTaskStatus::Completed } else { RunTaskStatus::Failed }),
        s.instance_status == (if succeeded { AgentInstanceStatus::Ready } else { AgentInstanceStatus::Failed }),
        s.checkpoint_status@ == settlement_checkpoint_status(succeeded),
        succeeded ==> s.error_code.is_none(),
        !succeeded ==> s.error_code.is_some() && s.error_code.unwrap()@ == "EXECUTION_ERROR"@,
{
    if succeeded {
        RunSettlement {
            task_status: RunTaskStatus::Completed,
            instance_status: AgentInstanceStatus::Ready,
            checkpoint_status: String::from_str("READY"),
            error_code: None,
        }
    } else {
        RunSettlement {
            task_status: RunTaskStatus::Failed,
            instance_status: AgentInstanceStatus::Failed,
            checkpoint_status: String::from_str("FAILED"),
            error_code: Some(String::from_str("EXECUTION_ERROR")),
        }
    }
}

pub open spec fn spec_next_depth(depth: nat, followups: nat) -> Option<nat> {
    if followups > 0 { Some(depth + 1) } else { None }
}

/// The depth of the follow-up run that a run's drained follow-up messages start, if
/// there are any.
pub fn next_followup_depth(depth: usize, followups: usize) -> (d: Option<usize>)
    requires
        spec_starts_run(depth as nat),
    ensures
        d == (match spec_next_depth(depth as nat, followups as nat) {
            Some(n) => Some(n as usize),
            None => None::<usize>,
        }),
{
    if followups > 0 {
        Some(depth + 1)
    } else {
        None
    }
}

pub open spec fn followup_goal(goal: Seq<char>) -> Seq<char> {
    "[followUp] "@ + goal
}

fn clone_texts(v: &Vec<String>) -> (out: Vec<String>)
    ensures
        out@.len() == v@.len(),
        forall|k: int| 0 <= k < v@.len() ==> #[trigger] out@[k]@ == v@[k]@,
{
    let mut out: Vec<String> = Vec::new();
    let mut i: usize = 0;
    while i < v.len()
        invariant
            i <= v@.len(),
            out@.len() == i,
            forall|k: int| 0 <= k < i ==> #[trigger] out@[k]@ == v@[k]@,
        decreases v@.len() - i,
    {
        out.push(v[i].clone());
        i = i + 1;
    }
    out
}

fn clone_opt_text(o: &Option<String>) -> (out: Option<String>)
    ensures
        out.is_some() == o.is_some(),
        o.is_some() ==> out.unwrap()@ == o.unwrap()@,
{
    match o {
        Some(s) => Some(s.clone()),
        None => None,
    }
}

/// The request of the follow-up run: the same goal marked `[followUp] `, the same
/// instructions, artifacts, references, constraints, mode and expected outputs, no
/// idempotency key or webhook, run synchronously on the same instance.
pub fn followup_request(request: &RunRequest, instance_id: u128) -> (f: RunRequest)
    ensures
        f.goal@ == followup_goal(request.goal@),
        f.instructions.is_some() == request.instructions.is_some(),
        request.instructions.is_some() ==> f.instructions.unwrap()@ == request.instructions.unwrap()@,
        f.input_artifacts@.len() == request.input_artifacts@.len(),
        forall|k: int| 0 <= k < request.input_artifacts@.len() ==> #[trigger] f.input_artifacts@[k]@ == request.input_artifacts@[k]@,
        f.external_context_refs@.len() == request.external_context_refs@.len(),
        forall|k: int| 0 <= k < request.external_context_refs@.len() ==> #[trigger] f.external_context_refs@[k]@ == request.external_context_refs@[k]@,
        f.constraints@.len() == request.constraints@.len(),
        forall|k: int| 0 <= k < request.constraints@.len() ==> #[trigger] f.constraints@[k]@ == request.constraints@[k]@,
        f.execution_mode.is_some() == request.execution_mode.is_some(),
        request.execution_mode.is_some() ==> f.execution_mode.unwrap()@ == request.execution_mode.unwrap()@,
        f.expected_outputs@.len() == request.expected_outputs@.len(),
        forall|k: int| 0 <= k < request.expected_outputs@.len() ==> #[trigger] f.expected_outputs@[k]@ == request.expected_outputs@[k]@,
        f.idempotency_key.is_none(),
        f.webhook_url.is_none(),
        !f.async_execution,
        f.agent_instance_id == Some(instance_id),
{
    let mut goal = String::from_str("[followUp] ");
    goal.append(request.goal.as_str());
    RunRequest {
        goal,
        instructions: clone_opt_text(&request.instructions),
        input_artifacts: clone_texts(&request.input_artifacts),
        external_context_refs: clone_texts(&request.external_context_refs),
        constraints: clone_texts(&request.constraints),
        execution_mode: clone_opt_text(&request.execution_mode),
        expected_outputs: clone_texts(&request.expected_outputs),
        idempotency_key: None,
        webhook_url: None,
        async_execution: false,
        agent_instance_id: Some(instance_id),
    }
}

/// How many runs a chain executes that starts at `depth`, when `has_followups[k]`
/// says whether the k-th run of the chain drains follow-up messages.
pub open spec fn chain_runs(depth: nat, has_followups: Seq<bool>) -> nat
    decreases has_followups.len(),
{
    if !spec_starts_run(depth) {
        0
    } else if has_followups.len() == 0 {
        1
    } else {
        1 + match spec_next_depth(depth, if has_followups[0] { 1 } else { 0 }) {
            Some(d) => chain_runs(d, has_followups.drop_first()),
            None => 0,
        }
    }
}

/// A follow-up chain never executes more runs than the depth that is left: from a
/// fresh run, at most `MAX_FOLLOWUP_DEPTH`.
pub proof fn lemma_followup_chain_bounded(depth: nat, has_followups: Seq<bool>)
    ensures
        chain_runs(depth, has_followups) <= if depth < MAX_FOLLOWUP_DEPTH { MAX_FOLLOWUP_DEPTH - depth } else { 0 },
    decreases has_followups.len(),
{
    if spec_starts_run(depth) && has_followups.len() > 0 {
        lemma_followup_chain_bounded(depth + 1, has_followups.drop_first());
    }
}

/// What a run's checkpoint records: the node it is taken at (the task, else the
/// instance), the instance state (the snapshot's status, `Ready` when it has none)
/// and the reason `run_service`.
pub struct CheckpointPlan {
    pub node_id: u128,
    pub instance_state: String,
    pub reason: String,
}

pub fn checkpoint_plan(instance_id: u128, task_id: Option<u128>, snapshot_status: Option<&str>) -> (p: CheckpointPlan)
    ensures
        p.node_id == (match task_id { Some(t) => t, None => instance_id }),
        p.instance_state@ == (match snapshot_status { Some(s) => s@, None => "Ready"@ }),
        p.reason@ == "run_service"@,
{
    let node_id = match task_id {
        Some(t) => t,
        None => instance_id,
    };
    let instance_state = match snapshot_status {
        Some(s) => s.to_string(),
        None => String::from_str("Ready"),
    };
    CheckpointPlan { node_id, instance_state, reason: String::from_str("run_service") }
}

/// The message that opens a run started without history.
pub fn initial_run_message() -> (s: &'static str)
    ensures
        s@ == "Run request execution"@,
{
    "Run request execution"
}

} // verus!
