//! The team supervisor's decisions: which handler runs a triaged task, how waiting
//! for one delegation ends, and what a finished mode execution does to the task.

use vstd::prelude::*;
use crate::recovery::TeamTaskStatus;
use crate::team::modes::{
    mode_of_name, DelegationEvent, ModeExecutionResult, PartialQuality, TeamModeHandler,
    RouteModeHandler, BroadcastModeHandler, CoordinateModeHandler, TasksModeHandler, WaitInput,
};

verus! {

/// The mode that triage selects for a team task.
#[derive(Debug, Clone, Copy, PartialEq, Eq, Structural)]
pub enum TeamMode {
    Route,
    Broadcast,
    Coordinate,
    Tasks,
}

/// The name under which a mode's handler is looked up.
pub open spec fn team_mode_name(m: TeamMode) -> Seq<char> {
    match m {
        TeamMode::Route => "route"@,
        TeamMode::Broadcast => "broadcast"@,
        TeamMode::Coordinate => "coordinate"@,
        TeamMode::Tasks => "tasks"@,
    }
}

/// The handler that runs a mode.
pub open spec fn handler_of_mode(m: TeamMode) -> TeamModeHandler {
    match m {
        TeamMode::Route => TeamModeHandler::Route(RouteModeHandler),
        TeamMode::Broadcast => TeamModeHandler::Broadcast(BroadcastModeHandler),
        TeamMode::Coordinate => TeamModeHandler::Coordinate(CoordinateModeHandler { max_rounds: 3 }),
        TeamMode::Tasks => TeamModeHandler::Tasks(TasksModeHandler { max_parallel_tasks: 5 }),
    }
}

/// The lookup name of a mode.
pub fn mode_name(m: TeamMode) -> (s: &'static str)
    ensures
        s@ == team_mode_name(m),
{
    match m {
        TeamMode::Route => "route",
        TeamMode::Broadcast => "broadcast",
        TeamMode::Coordinate => "coordinate",
        TeamMode::Tasks => "tasks",
    }
}

/// Every mode's name leads back to the handler of that mode.
pub proof fn lemma_mode_name_finds_its_handler(m: TeamMode)
    ensures
        mode_of_name(team_mode_name(m)) == Some(handler_of_mode(m)),
{
    reveal_strlit("route");
    reveal_strlit("broadcast");
    reveal_strlit("coordinate");
    reveal_strlit("tasks");
    assert("broadcast"@.len() == 9);
    assert("route"@.len() == 5);
    assert("broadcast"@ != "route"@);
    assert("tasks"@[0] != "route"@[0]);
    assert("tasks"@ != "route"@ && "tasks"@ != "broadcast"@ && "tasks"@ != "coordinate"@);
}

/// Why the supervisor could not run a task.
#[derive(Debug)]
pub enum SupervisorError {
    /// No handler is registered under the mode's name.
    NoHandler(String),
    /// No event listener was configured, so delegations cannot be awaited.
    ListenerNotConfigured,
    /// No supervisor agent is available to triage (no LLM client was configured).
    AgentUnavailable,
}

/// Picks the handler for a triaged mode; waiting needs an event listener.
pub fn handler_for_mode(mode: TeamMode, listener_configured: bool) -> (r: Result<TeamModeHandler, SupervisorError>)
    ensures
        listener_configured ==> r == Ok::<TeamModeHandler, SupervisorError>(handler_of_mode(mode)),
        !listener_configured ==> r == Err::<TeamModeHandler, SupervisorError>(SupervisorError::ListenerNotConfigured),
{
    let name = mode_name(mode);
    proof {
        lemma_mode_name_finds_its_handler(mode);
    }
    let handler = match TeamModeHandler::from_mode_name(name) {
        Some(h) => h,
        None => {
            return Err(SupervisorError::NoHandler(name.to_string()));
        }
    };
    if !listener_configured {
        return Err(SupervisorError::ListenerNotConfigured);
    }
    Ok(handler)
}

/// The task that one poll runs: the first open one, if there is any.
pub fn next_open_task(open_task_ids: &[u128]) -> (t: Option<u128>)
    ensures
        open_task_ids@.len() == 0 ==> t == None::<u128>,
        open_task_ids@.len() > 0 ==> t == Some(open_task_ids@[0]),
{
    if open_task_ids.len() == 0 {
        None
    } else {
        Some(open_task_ids[0])
    }
}

/// How waiting for a delegation ended.
pub enum DelegationWaitResult {
    Completed,
    Failed(String),
    TimeoutPartial(PartialQuality),
    Rejected(String),
    Timeout,
}

/// One step of the supervisor's wait: go on waiting, stop with a result, or give up
/// with an error (the subscription itself failed).
pub enum SupervisorWaitStep {
    Continue,
    Finish(DelegationWaitResult),
    Abort,
}

pub open spec fn spec_supervisor_wait_step(input: WaitInput) -> SupervisorWaitStep {
    match input {
        WaitInput::SubscribeFailed => SupervisorWaitStep::Abort,
        WaitInput::DeadlineReached | WaitInput::TimedOut => SupervisorWaitStep::Finish(DelegationWaitResult::Timeout),
        WaitInput::StreamEnded => SupervisorWaitStep::Continue,
        WaitInput::Event(e) => match e {
            DelegationEvent::Completed => SupervisorWaitStep::Finish(DelegationWaitResult::Completed),
            DelegationEvent::Failed { error } => SupervisorWaitStep::Finish(DelegationWaitResult::Failed(error)),
            DelegationEvent::TimeoutPartial { partial_quality } => SupervisorWaitStep::Finish(
                DelegationWaitResult::TimeoutPartial(partial_quality),
            ),
            DelegationEvent::Rejected { reason } => SupervisorWaitStep::Finish(DelegationWaitResult::Rejected(reason)),
            DelegationEvent::Created | DelegationEvent::Accepted => SupervisorWaitStep::Continue,
        },
    }
}

/// What the supervisor does with one thing that happened while it waits for a
/// delegation: a terminal event or the deadline ends the wait; other events and an
/// ended stream let it go on until the deadline.
pub fn supervisor_wait_step(input: WaitInput) -> (step: SupervisorWaitStep)
    ensures
        step == spec_supervisor_wait_step(input),
        (step matches SupervisorWaitStep::Finish(DelegationWaitResult::Completed))
            <==> (input matches WaitInput::Event(DelegationEvent::Completed)),
        (input matches WaitInput::Event(DelegationEvent::Created)) ==> step is Continue,
        (input matches WaitInput::Event(DelegationEvent::Accepted)) ==> step is Continue,
{
    proof { lemma_supervisor_wait_ends_only_at_an_end(input); }
    match input {
        WaitInput::SubscribeFailed => SupervisorWaitStep::Abort,
        WaitInput::DeadlineReached | WaitInput::TimedOut => SupervisorWaitStep::Finish(DelegationWaitResult::Timeout),
        WaitInput::StreamEnded => SupervisorWaitStep::Continue,
        WaitInput::Event(e) => match e {
            DelegationEvent::Completed => SupervisorWaitStep::Finish(DelegationWaitResult::Completed),
            DelegationEvent::Failed { error } => SupervisorWaitStep::Finish(DelegationWaitResult::Failed(error)),
            DelegationEvent::TimeoutPartial { partial_quality } => SupervisorWaitStep::Finish(
                DelegationWaitResult::TimeoutPartial(partial_quality),
            ),
            DelegationEvent::Rejected { reason } => SupervisorWaitStep::Finish(DelegationWaitResult::Rejected(reason)),
            DelegationEvent::Created | DelegationEvent::Accepted => SupervisorWaitStep::Continue,
        },
    }
}

/// The supervisor's wait ends as a completion exactly when the delegation's
/// completion arrives: creation, acceptance or an ended stream let it go on; a
/// failed subscription aborts it; failures, rejections and partial timeouts end it
/// with what the member reported; running out of time ends it as a timeout.
pub proof fn lemma_supervisor_wait_ends_only_at_an_end(input: WaitInput)
    ensures
        (spec_supervisor_wait_step(input) matches SupervisorWaitStep::Finish(DelegationWaitResult::Completed))
            <==> (input matches WaitInput::Event(DelegationEvent::Completed)),
        (spec_supervisor_wait_step(input) is Continue) <==> (input is StreamEnded
            || input matches WaitInput::Event(DelegationEvent::Created)
            || input matches WaitInput::Event(DelegationEvent::Accepted)),
        (spec_supervisor_wait_step(input) is Abort) <==> input is SubscribeFailed,
        input matches WaitInput::Event(DelegationEvent::Failed { error })
            ==> spec_supervisor_wait_step(input) == SupervisorWaitStep::Finish(DelegationWaitResult::Failed(error)),
        input matches WaitInput::Event(DelegationEvent::Rejected { reason })
            ==> spec_supervisor_wait_step(input) == SupervisorWaitStep::Finish(DelegationWaitResult::Rejected(reason)),
        (input is DeadlineReached || input is TimedOut)
            ==> spec_supervisor_wait_step(input) == SupervisorWaitStep::Finish(DelegationWaitResult::Timeout),
{
}

/// What running a team task reports.
pub struct SupervisorResult {
    pub task_id: u128,
    pub success: bool,
    pub summary: String,
}

/// What a finished mode execution does to its team task: the status it is given,
/// whether it is marked completed, and the report.
pub struct TaskFinish {
    pub status: TeamTaskStatus,
    pub mark_completed: bool,
    pub result: SupervisorResult,
}

/// A successful execution completes the task; any other fails it with the summary.
pub fn finish_task(task_id: u128, outcome: ModeExecutionResult) -> (f: TaskFinish)
    ensures
        f.status == (if outcome.success { TeamTaskStatus::Completed } else { TeamTaskStatus::Failed }),
        f.mark_completed == outcome.success,
        f.result.task_id == task_id,
        f.result.success == outcome.success,
        f.result.summary@ == outcome.summary@,
{
    let success = outcome.success;
    let status = if success { TeamTaskStatus::Completed } else { TeamTaskStatus::Failed };
    TaskFinish {
        status,
        mark_completed: success,
        result: SupervisorResult { task_id, success, summary: outcome.summary },
    }
}

/// What the caller of a team task's run reports.
pub enum TaskEvent {
    /// The task is to be run.
    Start,
    /// Triage ended with the mode it selected, or found no supervisor agent.
    Triaged(Option<TeamMode>),
    /// The team's candidates were resolved.
    CandidatesResolved,
    /// The mode's handler ran and gave this result.
    ModeFinished(ModeExecutionResult),
}

/// What the caller does next in a team task's run.
pub enum TaskStep {
    /// Emit the task's receipt and triage it.
    Triage,
    /// Record the triage and the selected mode (events and repository), give the
    /// task this status, and resolve the team's candidates.
    Begin { mode: TeamMode, status: TeamTaskStatus },
    /// Run this handler on the candidates.
    RunMode(TeamModeHandler),
    /// Give the task its final status, mark it completed if so, emit the team's
    /// completion or failure, and report.
    Finish(TaskFinish),
    /// Stop with this error.
    Abort(SupervisorError),
}

/// Where a team task's run stands.
#[derive(Debug, Clone, Copy, PartialEq, Eq, Structural)]
pub enum TaskPhase {
    New,
    Triaging,
    Resolving(TeamMode),
    Running,
    Done,
}

/// A run as plain values.
pub struct TaskRunView {
    pub task_id: u128,
    pub listener_configured: bool,
    pub phase: TaskPhase,
}

pub enum TaskEventView {
    Start,
    Triaged(Option<TeamMode>),
    CandidatesResolved,
    ModeFinished(bool, Seq<char>),
}

pub enum TaskStepView {
    Triage,
    Begin(TeamMode, TeamTaskStatus),
    RunMode(TeamModeHandler),
    Finish(TeamTaskStatus, bool, u128, bool, Seq<char>),
    Abort(SupervisorError),
}

pub open spec fn task_event_view(e: TaskEvent) -> TaskEventView {
    match e {
        TaskEvent::Start => TaskEventView::Start,
        TaskEvent::Triaged(m) => TaskEventView::Triaged(m),
        TaskEvent::CandidatesResolved => TaskEventView::CandidatesResolved,
        TaskEvent::ModeFinished(r) => TaskEventView::ModeFinished(r.success, r.summary@),
    }
}

pub open spec fn task_step_view(a: TaskStep) -> TaskStepView {
    match a {
        TaskStep::Triage => TaskStepView::Triage,
        TaskStep::Begin { mode, status } => TaskStepView::Begin(mode, status),
        TaskStep::RunMode(h) => TaskStepView::RunMode(h),
        TaskStep::Finish(f) => TaskStepView::Finish(f.status, f.mark_completed, f.result.task_id, f.result.success, f.result.summary@),
        TaskStep::Abort(e) => TaskStepView::Abort(e),
    }
}

/// Which events a run takes in a phase: the start, then the triage, then the
/// candidates, then the mode's result.
pub open spec fn task_accepts(s: TaskRunView, e: TaskEventView) -> bool {
    match e {
        TaskEventView::Start => s.phase == TaskPhase::New,
        TaskEventView::Triaged(_) => s.phase == TaskPhase::Triaging,
        TaskEventView::CandidatesResolved => s.phase is Resolving,
        TaskEventView::ModeFinished(_, _) => s.phase == TaskPhase::Running,
    }
}

/// A team task's run: it is triaged first; without a supervisor agent it stops
/// with that error before the task's status is touched. Otherwise the triage and
/// mode are recorded and the task set in progress; once the candidates are known
/// the mode's handler runs (waiting needs an event listener, without which the run
/// stops with that error); its result completes the task or fails it.
pub open spec fn task_step(s: TaskRunView, e: TaskEventView) -> (TaskRunView, TaskStepView) {
    match e {
        TaskEventView::Start => (TaskRunView { phase: TaskPhase::Triaging, ..s }, TaskStepView::Triage),
        TaskEventView::Triaged(m) => match m {
            None => (TaskRunView { phase: TaskPhase::Done, ..s }, TaskStepView::Abort(SupervisorError::AgentUnavailable)),
            Some(mode) => (
                TaskRunView { phase: TaskPhase::Resolving(mode), ..s },
                TaskStepView::Begin(mode, TeamTaskStatus::InProgress),
            ),
        },
        TaskEventView::CandidatesResolved => match s.phase {
            TaskPhase::Resolving(mode) => if s.listener_configured {
                (TaskRunView { phase: TaskPhase::Running, ..s }, TaskStepView::RunMode(handler_of_mode(mode)))
            } else {
                (TaskRunView { phase: TaskPhase::Done, ..s }, TaskStepView::Abort(SupervisorError::ListenerNotConfigured))
            },
            _ => (s, TaskStepView::Abort(SupervisorError::ListenerNotConfigured)),
        },
        TaskEventView::ModeFinished(success, summary) => (
            TaskRunView { phase: TaskPhase::Done, ..s },
            TaskStepView::Finish(
                if success { TeamTaskStatus::Completed } else { TeamTaskStatus::Failed },
                success,
                s.task_id,
                success,
                summary,
            ),
        ),
    }
}

/// A team task's run, step by step.
pub struct TaskRun {
    task_id: u128,
    listener_configured: bool,
    phase: TaskPhase,
}

impl View for TaskRun {
    type V = TaskRunView;

    closed spec fn view(&self) -> TaskRunView {
        TaskRunView { task_id: self.task_id, listener_configured: self.listener_configured, phase: self.phase }
    }
}

impl TaskRun {
    /// A run of the task, with or without an event listener to wait with.
    pub fn new(task_id: u128, listener_configured: bool) -> (r: TaskRun)
        ensures
            r@ == (TaskRunView { task_id, listener_configured, phase: TaskPhase::New }),
    {
        TaskRun { task_id, listener_configured, phase: TaskPhase::New }
    }

    /// Whether the run takes `e` now.
    pub fn accepts(&self, e: &TaskEvent) -> (b: bool)
        ensures
            b == task_accepts(self@, task_event_view(*e)),
    {
        match e {
            TaskEvent::Start => self.phase == TaskPhase::New,
            TaskEvent::Triaged(_) => self.phase == TaskPhase::Triaging,
            TaskEvent::CandidatesResolved => match self.phase {
                TaskPhase::Resolving(_) => true,
                _ => false,
            },
            TaskEvent::ModeFinished(_) => self.phase == TaskPhase::Running,
        }
    }

    /// One step: the next state and what to do.
    pub fn step(self, e: TaskEvent) -> (r: (TaskRun, TaskStep))
        requires
            task_accepts(self@, task_event_view(e)),
        ensures
            (r.0@, task_step_view(r.1)) == task_step(self@, task_event_view(e)),
    {
        let mut run = self;
        match e {
            TaskEvent::Start => {
                run.phase = TaskPhase::Triaging;
                (run, TaskStep::Triage)
            },
            TaskEvent::Triaged(m) => match m {
                None => {
                    run.phase = TaskPhase::Done;
                    (run, TaskStep::Abort(SupervisorError::AgentUnavailable))
                },
                Some(mode) => {
                    run.phase = TaskPhase::Resolving(mode);
                    (run, TaskStep::Begin { mode, status: TeamTaskStatus::InProgress })
                },
            },
            TaskEvent::CandidatesResolved => {
                let mode = match run.phase {
                    TaskPhase::Resolving(mode) => mode,
                    _ => TeamMode::Route,
                };
                match handler_for_mode(mode, run.listener_configured) {
                    Ok(h) => {
                        run.phase = TaskPhase::Running;
                        (run, TaskStep::RunMode(h))
                    },
                    Err(err) => {
                        run.phase = TaskPhase::Done;
                        (run, TaskStep::Abort(err))
                    },
                }
            },
            TaskEvent::ModeFinished(result) => {
                run.phase = TaskPhase::Done;
                let f = finish_task(run.task_id, result);
                (run, TaskStep::Finish(f))
            },
        }
    }
}

/// The steps of a run for a sequence of events, up to the first it does not take.
pub open spec fn task_steps(s: TaskRunView, es: Seq<TaskEventView>) -> Seq<TaskStepView>
    decreases es.len(),
{
    if es.len() == 0 || !task_accepts(s, es[0]) {
        seq![]
    } else {
        seq![task_step(s, es[0]).1] + task_steps(task_step(s, es[0]).0, es.drop_first())
    }
}

/// The statuses that a step gives the task.
pub open spec fn step_statuses(a: TaskStepView) -> Seq<TeamTaskStatus> {
    match a {
        TaskStepView::Begin(_, status) => seq![status],
        TaskStepView::Finish(status, _, _, _, _) => seq![status],
        _ => seq![],
    }
}

pub open spec fn status_updates(steps: Seq<TaskStepView>) -> Seq<TeamTaskStatus>
    decreases steps.len(),
{
    if steps.len() == 0 { seq![] } else { step_statuses(steps[0]) + status_updates(steps.drop_first()) }
}

/// A team task's status goes to in progress and then, at most once, to completed or
/// failed; a run whose triage finds no supervisor agent stops with that error and
/// gives the task no status at all.
pub proof fn lemma_task_status_order(task_id: u128, listener_configured: bool, es: Seq<TaskEventView>)
    ensures
        ({
            let steps = task_steps(TaskRunView { task_id, listener_configured, phase: TaskPhase::New }, es);
            let u = status_updates(steps);
            &&& steps.len() <= 4
            &&& u.len() <= 2
            &&& u.len() >= 1 ==> u[0] == TeamTaskStatus::InProgress
            &&& u.len() == 2 ==> (u[1] == TeamTaskStatus::Completed || u[1] == TeamTaskStatus::Failed)
            &&& steps.contains(TaskStepView::Abort(SupervisorError::AgentUnavailable)) ==> u.len() == 0
        }),
{
    let s0 = TaskRunView { task_id, listener_configured, phase: TaskPhase::New };
    let steps = task_steps(s0, es);
    if es.len() == 0 || !task_accepts(s0, es[0]) {
        assert(steps.len() == 0);
        assert(status_updates(steps) =~= Seq::<TeamTaskStatus>::empty());
        return;
    }
    let (s1, a1) = task_step(s0, es[0]);
    let e1 = es.drop_first();
    let r1 = task_steps(s1, e1);
    assert(steps == seq![a1] + r1);
    assert(a1 == TaskStepView::Triage);
    assert((seq![a1] + r1).drop_first() =~= r1);
    if e1.len() == 0 || !task_accepts(s1, e1[0]) {
        assert(r1.len() == 0);
        assert(status_updates(r1) =~= Seq::<TeamTaskStatus>::empty());
        assert(status_updates(steps) =~= Seq::<TeamTaskStatus>::empty());
        assert(steps =~= seq![a1]);
        return;
    }
    let (s2, a2) = task_step(s1, e1[0]);
    let e2 = e1.drop_first();
    let r2 = task_steps(s2, e2);
    assert(r1 == seq![a2] + r2);
    assert((seq![a2] + r2).drop_first() =~= r2);
    if s2.phase == TaskPhase::Done {
        assert(a2 == TaskStepView::Abort(SupervisorError::AgentUnavailable));
        assert(r2.len() == 0);
        assert(status_updates(r2) =~= Seq::<TeamTaskStatus>::empty());
        assert(status_updates(r1) =~= Seq::<TeamTaskStatus>::empty());
        assert(status_updates(steps) =~= Seq::<TeamTaskStatus>::empty());
        return;
    }
    assert(a2 matches TaskStepView::Begin(_, TeamTaskStatus::InProgress));
    if e2.len() == 0 || !task_accepts(s2, e2[0]) {
        assert(r2.len() == 0);
        assert(status_updates(r2) =~= Seq::<TeamTaskStatus>::empty());
        assert(status_updates(r1) =~= seq![TeamTaskStatus::InProgress]);
        assert(status_updates(steps) =~= seq![TeamTaskStatus::InProgress]);
        assert(steps =~= seq![a1, a2]);
        return;
    }
    let (s3, a3) = task_step(s2, e2[0]);
    let e3 = e2.drop_first();
    let r3 = task_steps(s3, e3);
    assert(r2 == seq![a3] + r3);
    assert((seq![a3] + r3).drop_first() =~= r3);
    if s3.phase == TaskPhase::Done {
        assert(a3 == TaskStepView::Abort(SupervisorError::ListenerNotConfigured));
        assert(r3.len() == 0);
        assert(status_updates(r3) =~= Seq::<TeamTaskStatus>::empty());
        assert(status_updates(r2) =~= Seq::<TeamTaskStatus>::empty());
        assert(status_updates(r1) =~= seq![TeamTaskStatus::InProgress]);
        assert(status_updates(steps) =~= seq![TeamTaskStatus::InProgress]);
        assert(steps =~= seq![a1, a2, a3]);
        return;
    }
    assert(a3 is RunMode);
    if e3.len() == 0 || !task_accepts(s3, e3[0]) {
        assert(r3.len() == 0);
        assert(status_updates(r3) =~= Seq::<TeamTaskStatus>::empty());
        assert(status_updates(r2) =~= Seq::<TeamTaskStatus>::empty());
        assert(status_updates(r1) =~= seq![TeamTaskStatus::InProgress]);
        assert(status_updates(steps) =~= seq![TeamTaskStatus::InProgress]);
        assert(steps =~= seq![a1, a2, a3]);
        return;
    }
    let (s4, a4) = task_step(s3, e3[0]);
    let e4 = e3.drop_first();
    let r4 = task_steps(s4, e4);
    assert(r3 == seq![a4] + r4);
    assert((seq![a4] + r4).drop_first() =~= r4);
    assert(s4.phase == TaskPhase::Done);
    assert(r4.len() == 0);
    let fin = step_statuses(a4);
    assert(fin.len() == 1 && (fin[0] == TeamTaskStatus::Completed || fin[0] == TeamTaskStatus::Failed));
    assert(status_updates(r4) =~= Seq::<TeamTaskStatus>::empty());
    assert(status_updates(r3) =~= fin);
    assert(status_updates(r2) =~= fin);
    assert(status_updates(r1) =~= seq![TeamTaskStatus::InProgress] + fin);
    assert(status_updates(steps) =~= seq![TeamTaskStatus::InProgress] + fin);
    assert(steps =~= seq![a1, a2, a3, a4]);
}

} // verus!
