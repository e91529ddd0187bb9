use torque_harness::recovery::TeamTaskStatus;
use torque_harness::team::mode_runs::{subtask_payload, BroadcastRun, CoordinateRun, ModeEvent, ModeMove, RouteRun, TasksRun};
use torque_harness::team::modes::{DelegationWaitOutcome, ModeExecutionResult, TeamModeHandler};
use torque_harness::team::supervisor::{SupervisorError, TaskEvent, TaskRun, TaskStep, TeamMode};

fn create_index(m: &ModeMove) -> Option<(usize, Option<(usize, bool)>)> {
    match m {
        ModeMove::Create { member_index, coordinate, .. } => Some((*member_index, *coordinate)),
        _ => None,
    }
}

fn subtask_of(m: &ModeMove) -> Option<(usize, String, usize, usize, u128, bool)> {
    match m {
        ModeMove::Create { member_index, subtask: Some(p), .. } => {
            Some((*member_index, p.goal.clone(), p.subtask_index, p.total_subtasks, p.parent_task_id, p.decomposed))
        }
        _ => None,
    }
}

fn wait_of(m: &ModeMove) -> Option<(usize, u128)> {
    match m {
        ModeMove::Wait { member_index, delegation_id } => Some((*member_index, *delegation_id)),
        _ => None,
    }
}

#[test]
fn broadcast_creates_every_delegation_before_waiting() {
    let run = BroadcastRun::new(3, "ship it");
    let (run, a) = run.step(ModeEvent::Start);
    assert_eq!(create_index(&a.next), Some((0, None)));
    let (run, a) = run.step(ModeEvent::Created(10));
    assert_eq!(create_index(&a.next), Some((1, None)));
    let (run, a) = run.step(ModeEvent::Created(11));
    assert_eq!(create_index(&a.next), Some((2, None)));
    assert!(!run.accepts(&ModeEvent::Outcome(DelegationWaitOutcome::Completed)));
    let (run, a) = run.step(ModeEvent::Created(12));
    assert_eq!(wait_of(&a.next), Some((0, 10)));
    assert!(!run.accepts(&ModeEvent::Created(13)));
    let (run, a) = run.step(ModeEvent::Outcome(DelegationWaitOutcome::Completed));
    let (m, d, st) = a.record.unwrap();
    assert_eq!((m, d), (0, 10));
    assert_eq!(st.status, "ACCEPTED");
    assert_eq!(wait_of(&a.next), Some((1, 11)));
    let (run, a) = run.step(ModeEvent::Outcome(DelegationWaitOutcome::Failed("boom".to_string())));
    assert_eq!(a.record.unwrap().2.status, "FAILED");
    assert_eq!(wait_of(&a.next), Some((2, 12)));
    let (run, a) = run.step(ModeEvent::Outcome(DelegationWaitOutcome::Rejected("no".to_string())));
    assert_eq!(a.record.unwrap().2.status, "REJECTED");
    assert_eq!(a.decisions, vec!["Broadcast completed: 1/3 accepted, 2/3 failed for task: ship it".to_string()]);
    match a.next {
        ModeMove::Finish(r) => {
            assert!(!r.success);
            assert_eq!(r.summary, "Broadcast completed with 1/3 accepted, 2/3 failed");
            assert_eq!(r.delegation_ids, vec![10, 11, 12]);
        }
        _ => panic!("the last outcome ends the broadcast"),
    }
    assert!(!run.accepts(&ModeEvent::Start));
}

#[test]
fn broadcast_without_candidates_finishes_at_once() {
    let (_, a) = BroadcastRun::new(0, "g").step(ModeEvent::Start);
    match a.next {
        ModeMove::Finish(r) => {
            assert!(!r.success);
            assert_eq!(r.summary, "No candidates for broadcast");
            assert!(r.delegation_ids.is_empty());
        }
        _ => panic!("no candidates, no delegation"),
    }
}

#[test]
fn broadcast_of_completions_succeeds() {
    let run = BroadcastRun::new(1, "g");
    let (run, _) = run.step(ModeEvent::Start);
    let (run, a) = run.step(ModeEvent::Created(4));
    assert_eq!(wait_of(&a.next), Some((0, 4)));
    let (_, a) = run.step(ModeEvent::Outcome(DelegationWaitOutcome::Completed));
    match a.next {
        ModeMove::Finish(r) => assert!(r.success),
        _ => panic!("one candidate, one outcome"),
    }
}

#[test]
fn coordinate_runs_rounds_in_turn_and_stops_at_a_failure() {
    let roles = vec!["planner".to_string(), "coder".to_string(), "tester".to_string(), "extra".to_string()];
    let run = CoordinateRun::new(roles, "build", 3);
    let (run, a) = run.step(ModeEvent::Start);
    assert_eq!(
        a.decisions,
        vec!["Starting coordination for task: build with 3 rounds".to_string(), "Coordination round 1: delegating to planner".to_string()]
    );
    assert_eq!(create_index(&a.next), Some((0, Some((1, false)))));
    let (run, a) = run.step(ModeEvent::Created(5));
    assert_eq!(wait_of(&a.next), Some((0, 5)));
    assert!(!run.accepts(&ModeEvent::Created(6)));
    let (run, a) = run.step(ModeEvent::Outcome(DelegationWaitOutcome::Completed));
    assert_eq!(a.decisions, vec!["Coordination round 2: delegating to coder".to_string()]);
    assert_eq!(create_index(&a.next), Some((1, Some((2, true)))));
    let (run, a) = run.step(ModeEvent::Created(6));
    assert_eq!(wait_of(&a.next), Some((1, 6)));
    let (run, a) = run.step(ModeEvent::Outcome(DelegationWaitOutcome::Timeout));
    let st = a.record.unwrap().2;
    assert_eq!(st.status, "TIMEOUT");
    assert!(st.stop);
    assert_eq!(a.decisions, vec!["Coordinate mode completed: 3 rounds (1 failed) for task: build".to_string()]);
    match a.next {
        ModeMove::Finish(r) => {
            assert!(!r.success);
            assert_eq!(r.summary, "Coordinate mode completed with 3 rounds (1 failed)");
            assert_eq!(r.delegation_ids, vec![5, 6]);
        }
        _ => panic!("a timeout ends the coordination"),
    }
    assert!(!run.accepts(&ModeEvent::Created(7)));
}

#[test]
fn coordinate_succeeds_when_every_round_completes() {
    let run = CoordinateRun::new(vec!["a".to_string(), "b".to_string()], "g", 3);
    let (run, _) = run.step(ModeEvent::Start);
    let (run, _) = run.step(ModeEvent::Created(1));
    let (run, a) = run.step(ModeEvent::Outcome(DelegationWaitOutcome::Completed));
    assert_eq!(create_index(&a.next), Some((1, Some((2, true)))));
    let (run, _) = run.step(ModeEvent::Created(2));
    let (_, a) = run.step(ModeEvent::Outcome(DelegationWaitOutcome::Completed));
    match a.next {
        ModeMove::Finish(r) => {
            assert!(r.success);
            assert_eq!(r.summary, "Coordinate mode completed with 2 rounds (0 failed)");
            assert_eq!(r.delegation_ids, vec![1, 2]);
        }
        _ => panic!("two candidates, two rounds"),
    }
}

#[test]
fn coordinate_without_candidates_finishes_at_once() {
    let (_, a) = CoordinateRun::new(vec![], "g", 3).step(ModeEvent::Start);
    assert!(a.decisions.is_empty());
    match a.next {
        ModeMove::Finish(r) => assert_eq!(r.summary, "No candidates for coordinate mode"),
        _ => panic!("no candidates"),
    }
}

#[test]
fn a_task_without_supervisor_agent_errs_before_any_status() {
    let run = TaskRun::new(9, true);
    let (run, s) = run.step(TaskEvent::Start);
    assert!(matches!(s, TaskStep::Triage));
    let (run, s) = run.step(TaskEvent::Triaged(None));
    assert!(matches!(s, TaskStep::Abort(SupervisorError::AgentUnavailable)));
    assert!(!run.accepts(&TaskEvent::CandidatesResolved));
}

#[test]
fn a_task_goes_in_progress_then_completes() {
    let run = TaskRun::new(9, true);
    let (run, _) = run.step(TaskEvent::Start);
    let (run, s) = run.step(TaskEvent::Triaged(Some(TeamMode::Broadcast)));
    assert!(matches!(s, TaskStep::Begin { mode: TeamMode::Broadcast, status: TeamTaskStatus::InProgress }));
    let (run, s) = run.step(TaskEvent::CandidatesResolved);
    assert!(matches!(s, TaskStep::RunMode(TeamModeHandler::Broadcast(_))));
    let result = ModeExecutionResult { success: true, summary: "all done".to_string(), delegation_ids: vec![], published_artifact_ids: vec![] };
    let (_, s) = run.step(TaskEvent::ModeFinished(result));
    match s {
        TaskStep::Finish(f) => {
            assert_eq!(f.status, TeamTaskStatus::Completed);
            assert!(f.mark_completed);
            assert_eq!(f.result.task_id, 9);
            assert_eq!(f.result.summary, "all done");
        }
        _ => panic!("the mode's result finishes the task"),
    }
}

#[test]
fn a_task_without_listener_stops_after_going_in_progress() {
    let run = TaskRun::new(9, false);
    let (run, _) = run.step(TaskEvent::Start);
    let (run, _) = run.step(TaskEvent::Triaged(Some(TeamMode::Route)));
    let (_, s) = run.step(TaskEvent::CandidatesResolved);
    assert!(matches!(s, TaskStep::Abort(SupervisorError::ListenerNotConfigured)));
}

#[test]
fn a_failed_mode_fails_the_task() {
    let run = TaskRun::new(3, true);
    let (run, _) = run.step(TaskEvent::Start);
    let (run, _) = run.step(TaskEvent::Triaged(Some(TeamMode::Tasks)));
    let (run, _) = run.step(TaskEvent::CandidatesResolved);
    let result = ModeExecutionResult { success: false, summary: "broken".to_string(), delegation_ids: vec![], published_artifact_ids: vec![] };
    let (_, s) = run.step(TaskEvent::ModeFinished(result));
    match s {
        TaskStep::Finish(f) => {
            assert_eq!(f.status, TeamTaskStatus::Failed);
            assert!(!f.mark_completed);
            assert_eq!(f.result.summary, "broken");
        }
        _ => panic!("the mode's result finishes the task"),
    }
}

#[test]
fn tasks_delegate_each_subtask_and_wait_before_the_next() {
    let roles = vec!["a".to_string(), "b".to_string()];
    let run = TasksRun::new(roles, "1. plan\n2. build\n3. test", 77, 5);
    let (run, a) = run.step(ModeEvent::Start);
    assert_eq!(
        a.decisions,
        vec!["Starting task decomposition: 3 subtasks for goal: 1. plan\n2. build\n3. test".to_string(), "Task 1: delegating 'plan' to a".to_string()]
    );
    assert_eq!(subtask_of(&a.next), Some((0, "plan".to_string(), 0, 3, 77, true)));
    let (run, a) = run.step(ModeEvent::Created(100));
    assert_eq!(wait_of(&a.next), Some((0, 100)));
    assert!(!run.accepts(&ModeEvent::Created(101)));
    let (run, a) = run.step(ModeEvent::Outcome(DelegationWaitOutcome::Rejected("no".to_string())));
    assert_eq!(a.record.as_ref().unwrap().2.status, "FAILED");
    assert_eq!(a.decisions, vec!["Task 2: delegating 'build' to b".to_string()]);
    assert_eq!(subtask_of(&a.next), Some((1, "build".to_string(), 1, 3, 77, true)));
    let (run, _) = run.step(ModeEvent::Created(101));
    let (run, a) = run.step(ModeEvent::Outcome(DelegationWaitOutcome::Completed));
    assert_eq!(subtask_of(&a.next), Some((0, "test".to_string(), 2, 3, 77, true)));
    let (run, a) = run.step(ModeEvent::Created(102));
    assert_eq!(wait_of(&a.next), Some((0, 102)));
    let (_, a) = run.step(ModeEvent::Outcome(DelegationWaitOutcome::Timeout));
    assert_eq!(a.record.as_ref().unwrap().2.status, "TIMEOUT");
    assert_eq!(
        a.decisions,
        vec!["Task decomposition completed: 3 delegations (2 failed) for goal: 1. plan\n2. build\n3. test".to_string()]
    );
    match a.next {
        ModeMove::Finish(r) => {
            assert!(!r.success);
            assert_eq!(r.summary, "Tasks mode completed: 3 subtasks delegated (2 failed)");
            assert_eq!(r.delegation_ids, vec![100, 101, 102]);
        }
        _ => panic!("the last subtask ends the run"),
    }
}

#[test]
fn tasks_without_candidates_finish_at_once() {
    let (_, a) = TasksRun::new(vec![], "g", 1, 5).step(ModeEvent::Start);
    match a.next {
        ModeMove::Finish(r) => assert_eq!(r.summary, "No candidates for tasks mode"),
        _ => panic!("no candidates"),
    }
}

#[test]
fn a_subtask_payload_names_its_place() {
    let p = subtask_payload("build", 1, 3, 9);
    assert_eq!((p.goal.as_str(), p.subtask_index, p.total_subtasks, p.parent_task_id, p.decomposed), ("build", 1, 3, 9, true));
}

#[test]
fn route_hands_the_task_to_the_first_candidate() {
    let run = RouteRun::new(2, "planner", "ship");
    let (run, a) = run.step(ModeEvent::Start, "");
    assert_eq!(create_index(&a.next), Some((0, None)));
    let (run, a) = run.step(ModeEvent::Created(5), "");
    assert_eq!(wait_of(&a.next), Some((0, 5)));
    let (run, a) = run.step(ModeEvent::Outcome(DelegationWaitOutcome::Failed("boom".to_string())), "");
    assert_eq!(a.record.as_ref().unwrap().2.status, "FAILED");
    assert_eq!(a.decisions, vec!["Route failed via member planner for task: ship - boom".to_string()]);
    match a.next {
        ModeMove::Finish(r) => {
            assert!(!r.success);
            assert_eq!(r.summary, "Delegation failed: boom");
            assert_eq!(r.delegation_ids, vec![5]);
        }
        _ => panic!("one outcome ends the route"),
    }
    assert!(!run.accepts(&ModeEvent::Start));
    let (_, a) = RouteRun::new(0, "", "ship").step(ModeEvent::Start, "");
    match a.next {
        ModeMove::Finish(r) => assert_eq!(r.summary, "No candidates available for route mode"),
        _ => panic!("no candidates"),
    }
}

#[test]
fn a_completed_route_succeeds() {
    let run = RouteRun::new(1, "coder", "fix");
    let (run, _) = run.step(ModeEvent::Start, "");
    let (run, _) = run.step(ModeEvent::Created(1), "");
    let (_, a) = run.step(ModeEvent::Outcome(DelegationWaitOutcome::Completed), "");
    assert_eq!(a.decisions, vec!["Route completed via member coder for task: fix".to_string()]);
    match a.next {
        ModeMove::Finish(r) => {
            assert!(r.success);
            assert_eq!(r.summary, "Route completed via member coder (delegation: 00000000-0000-0000-0000-000000000001)");
        }
        _ => panic!("one outcome ends the route"),
    }
}
