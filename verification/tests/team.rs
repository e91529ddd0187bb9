use torque_harness::recovery::TeamTaskStatus;
use torque_harness::team::circuit_breaker::{CircuitBreaker, CircuitState};
use torque_harness::team::event_listener::{
    delegation_subscription, into_wait_event, member_subscription, parse_delegation_event, team_subscription,
    EventEntry, EventValue, ParsedEvent, RedisStreamEventListener, StreamEventMessage,
};
use torque_harness::team::modes::{
    handle_outcome, no_candidates_result, route_result, wait_step, DelegationEvent, DelegationWaitOutcome,
    ModeExecutionResult, ModeKind, ModeTally, OutcomeKind, TasksModeHandler, TeamModeHandler, WaitInput,
};
use torque_harness::team::retry::{classify_rejection, MemberHealthTracker, RejectionReason, RetryBudget, RetryDecision};
use torque_harness::team::selector::{
    resolve_capable_agents, member_capabilities, CapabilityBinding, CapabilityProfile, InstanceDefinition,
    MemberSelector, SelectorResolver, SelectorType, TeamMember,
};
use torque_harness::team::shared_state::{SharedTaskStateManager, TeamEventEmitter, TeamEventType};
use torque_harness::team::supervisor::{
    finish_task, handler_for_mode, mode_name, next_open_task, supervisor_wait_step, DelegationWaitResult,
    SupervisorError, SupervisorWaitStep, TeamMode,
};
use torque_harness::team::supervisor_tools::PublishScope;

const ID: &str = "123e4567-e89b-12d3-a456-426614174000";
const ID_VALUE: u128 = 0x123e4567_e89b_12d3_a456_426614174000;

#[test]
fn retry_budget_spends_down_to_exhaustion() {
    let mut b = RetryBudget::new(3);
    assert!(b.can_retry());
    assert!(b.consume(1));
    assert!(b.consume(1));
    assert!(b.consume(1));
    assert!(b.is_exhausted());
    assert!(!b.can_retry());
    assert!(!b.consume(1));
    assert_eq!(b.remaining + b.spent, b.total);
    assert_eq!(b.spent, 3);
}

#[test]
fn rejections_are_classified() {
    let b = RetryBudget::new(2);
    assert!(matches!(classify_rejection(&RejectionReason::Timeout, &b), RetryDecision::RetryWithSameMember));
    assert!(matches!(classify_rejection(&RejectionReason::CapacityFull, &b), RetryDecision::RetryWithOtherMember));
    match classify_rejection(&RejectionReason::PolicyViolation, &b) {
        RetryDecision::DoNotRetry { reason } => assert_eq!(reason, "Policy violation"),
        _ => panic!("policy violations are not retried"),
    }
    let empty = RetryBudget::new(0);
    match classify_rejection(&RejectionReason::Timeout, &empty) {
        RetryDecision::DoNotRetry { reason } => assert_eq!(reason, "Budget exhausted"),
        _ => panic!("an empty budget allows no retry"),
    }
    match classify_rejection(&RejectionReason::Other("x".to_string()), &b) {
        RetryDecision::DoNotRetry { reason } => assert_eq!(reason, "Unknown error"),
        _ => panic!("unknown errors are not retried"),
    }
}

#[test]
fn breaker_opens_at_threshold_and_recovers() {
    let mut cb = CircuitBreaker::with_recovery_timeout(2, 2, 1_000);
    assert_eq!(cb.state(), CircuitState::Closed);
    cb.record_failure_at(&RejectionReason::Timeout, 10);
    assert_eq!(cb.state(), CircuitState::Closed);
    cb.record_failure_at(&RejectionReason::Timeout, 20);
    assert_eq!(cb.state(), CircuitState::Open);
    assert!(!cb.allow_request_at(500));
    assert!(cb.allow_request_at(1_020));
    assert_eq!(cb.state(), CircuitState::HalfOpen);
    cb.record_success();
    assert_eq!(cb.state(), CircuitState::HalfOpen);
    cb.record_success();
    assert_eq!(cb.state(), CircuitState::Closed);
}

#[test]
fn half_open_failure_reopens() {
    let mut cb = CircuitBreaker::with_recovery_timeout(1, 3, 100);
    cb.record_failure_at(&RejectionReason::Timeout, 0);
    assert_eq!(cb.state(), CircuitState::Open);
    cb.transition_to_half_open();
    assert_eq!(cb.state(), CircuitState::HalfOpen);
    cb.record_failure_at(&RejectionReason::Timeout, 5);
    assert_eq!(cb.state(), CircuitState::Open);
}

#[test]
fn an_unseen_member_is_healthy() {
    let mut t = MemberHealthTracker::new();
    assert!(t.is_healthy(42));
    let h = t.get_health(42);
    assert_eq!(h.member_id, 42);
    assert!(h.is_healthy);
}

#[test]
fn every_mode_name_leads_to_its_handler() {
    for (mode, name) in [
        (TeamMode::Route, "route"),
        (TeamMode::Broadcast, "broadcast"),
        (TeamMode::Coordinate, "coordinate"),
        (TeamMode::Tasks, "tasks"),
    ] {
        assert_eq!(mode_name(mode), name);
        assert!(TeamModeHandler::from_mode_name(name).is_some());
        assert!(handler_for_mode(mode, true).is_ok());
    }
    assert!(TeamModeHandler::from_mode_name("parallel").is_none());
    assert!(matches!(handler_for_mode(TeamMode::Route, false), Err(SupervisorError::ListenerNotConfigured)));
    assert!(matches!(handler_for_mode(TeamMode::Tasks, true), Ok(TeamModeHandler::Tasks(h)) if h.max_parallel_tasks == 5));
}

#[test]
fn supervisor_waits_until_a_terminal_event() {
    assert!(matches!(supervisor_wait_step(WaitInput::StreamEnded), SupervisorWaitStep::Continue));
    assert!(matches!(supervisor_wait_step(WaitInput::Event(DelegationEvent::Accepted)), SupervisorWaitStep::Continue));
    assert!(matches!(supervisor_wait_step(WaitInput::SubscribeFailed), SupervisorWaitStep::Abort));
    assert!(matches!(supervisor_wait_step(WaitInput::TimedOut), SupervisorWaitStep::Finish(DelegationWaitResult::Timeout)));
    match supervisor_wait_step(WaitInput::Event(DelegationEvent::Rejected { reason: "busy".to_string() })) {
        SupervisorWaitStep::Finish(DelegationWaitResult::Rejected(r)) => assert_eq!(r, "busy"),
        _ => panic!("a rejection ends the wait"),
    }
    assert!(wait_step(WaitInput::StreamEnded).is_none());
    assert!(matches!(wait_step(WaitInput::SubscribeFailed), Some(DelegationWaitOutcome::Timeout)));
}

#[test]
fn finished_tasks_are_completed_or_failed() {
    let ok = ModeExecutionResult { success: true, summary: "done".to_string(), delegation_ids: vec![], published_artifact_ids: vec![] };
    let f = finish_task(9, ok);
    assert_eq!(f.status, TeamTaskStatus::Completed);
    assert!(f.mark_completed);
    assert_eq!(f.result.summary, "done");
    let bad = no_candidates_result(ModeKind::Route);
    assert_eq!(bad.summary, "No candidates available for route mode");
    let g = finish_task(9, bad);
    assert_eq!(g.status, TeamTaskStatus::Failed);
    assert!(!g.mark_completed);
    assert_eq!(next_open_task(&[]), None);
    assert_eq!(next_open_task(&[4, 5]), Some(4));
}

#[test]
fn route_result_reports_the_outcome() {
    let r = route_result(&DelegationWaitOutcome::Completed, "coder", ID_VALUE, "");
    assert!(r.success);
    assert_eq!(r.summary, format!("Route completed via member coder (delegation: {})", ID));
    assert_eq!(r.delegation_ids, vec![ID_VALUE]);
    let f = route_result(&DelegationWaitOutcome::Failed("boom".to_string()), "coder", ID_VALUE, "");
    assert!(!f.success);
    assert_eq!(f.summary, "Delegation failed: boom");
    let step = handle_outcome(ModeKind::Route, &DelegationWaitOutcome::Completed);
    assert_eq!(step.status, "ACCEPTED");
}

#[test]
fn tally_counts_every_outcome() {
    let mut t = ModeTally::new();
    t.record(OutcomeKind::Completed);
    t.record(OutcomeKind::Failed);
    t.record(OutcomeKind::Timeout);
    assert_eq!(t.delegations, 3);
    assert_eq!(t.accepted, 1);
}

#[test]
fn goals_are_split_into_subtasks() {
    let h = TasksModeHandler::new();
    let subtasks = h.decompose_task("1. write the parser\n2) test it\n\n");
    assert_eq!(subtasks, vec!["write the parser".to_string(), "test it".to_string()]);
    let single = h.decompose_task("fix bug");
    assert_eq!(single, vec!["fix bug".to_string()]);
}

fn member(id: u128, instance: u128, role: &str) -> TeamMember {
    TeamMember { id, agent_instance_id: instance, role: role.to_string() }
}

#[test]
fn selector_resolves_candidates() {
    let resolver = SelectorResolver::new((), (), (), ());
    let members = vec![member(1, 10, "coder"), member(2, 20, "tester"), member(3, 30, "coder")];
    let instances = vec![
        InstanceDefinition { instance_id: 10, agent_definition_id: 100 },
        InstanceDefinition { instance_id: 20, agent_definition_id: 200 },
    ];
    let profiles = vec![
        CapabilityProfile { id: 7, name: "Rust Coding".to_string() },
        CapabilityProfile { id: 8, name: "Review".to_string() },
    ];
    let bindings = vec![
        CapabilityBinding { agent_definition_id: 100, capability_profile_id: 7 },
        CapabilityBinding { agent_definition_id: 200, capability_profile_id: 8 },
    ];
    let any = MemberSelector { selector_type: SelectorType::Any, capability_profiles: vec![], role: None, agent_definition_id: None };
    let cs = resolver.resolve(&any, &members, &instances, &profiles, &bindings);
    assert_eq!(cs.len(), 2);
    assert_eq!(cs[0].team_member_id, 1);
    assert_eq!(cs[0].selection_rationale, "Matched Any selector with role: coder");
    assert_eq!(cs[0].capability_profiles, vec!["Rust Coding".to_string()]);
    assert_eq!(cs[1].agent_definition_id, 200);

    let by_role = MemberSelector { selector_type: SelectorType::Role, capability_profiles: vec![], role: Some("tester".to_string()), agent_definition_id: None };
    let rs = resolver.resolve(&by_role, &members, &instances, &profiles, &bindings);
    assert_eq!(rs.len(), 1);
    assert_eq!(rs[0].team_member_id, 2);

    let by_cap = MemberSelector {
        selector_type: SelectorType::Capability,
        capability_profiles: vec!["rust".to_string()],
        role: None,
        agent_definition_id: None,
    };
    let caps = resolver.resolve(&by_cap, &members, &instances, &profiles, &bindings);
    assert_eq!(caps.len(), 1);
    assert_eq!(caps[0].agent_definition_id, 100);

    let direct = MemberSelector { selector_type: SelectorType::Direct, capability_profiles: vec![], role: None, agent_definition_id: Some(200) };
    let ds = resolver.resolve(&direct, &members, &instances, &profiles, &bindings);
    assert_eq!(ds.len(), 1);
    assert_eq!(ds[0].selection_rationale, "Matched Direct selector with role: tester");

    assert!(resolve_capable_agents(&vec![], &profiles, &bindings).is_empty());
    assert_eq!(resolve_capable_agents(&vec!["REVIEW".to_string()], &profiles, &bindings), vec![200]);
    assert_eq!(member_capabilities(100, &profiles, &bindings), vec!["Rust Coding".to_string()]);
    assert!(member_capabilities(300, &profiles, &bindings).is_empty());
}

fn entry(key: &str, value: EventValue) -> EventEntry {
    EventEntry { key: key.to_string(), value }
}

#[test]
fn stream_messages_become_events() {
    let completed = StreamEventMessage {
        type_field: Some("completed".to_string()),
        data: Some(vec![entry("member_id", EventValue::Text(ID.to_string())), entry("artifact_id", EventValue::Text(ID.to_string()))]),
    };
    match parse_delegation_event(&completed, 5) {
        Some(ParsedEvent::Completed { delegation_id, member_id, artifact_id }) => {
            assert_eq!(delegation_id, 5);
            assert_eq!(member_id, ID_VALUE);
            assert_eq!(artifact_id, ID_VALUE);
        }
        _ => panic!("a completed message is a completed event"),
    }
    let bad_id = StreamEventMessage {
        type_field: Some("accepted".to_string()),
        data: Some(vec![entry("member_id", EventValue::Text("nope".to_string()))]),
    };
    assert!(parse_delegation_event(&bad_id, 5).is_none());
    let unknown = StreamEventMessage { type_field: Some("paused".to_string()), data: Some(vec![]) };
    assert!(parse_delegation_event(&unknown, 5).is_none());
    let no_data = StreamEventMessage { type_field: Some("accepted".to_string()), data: None };
    assert!(parse_delegation_event(&no_data, 5).is_none());
    let partial = StreamEventMessage {
        type_field: Some("timeout_partial".to_string()),
        data: Some(vec![
            entry("completeness", EventValue::Number(0.5f32.to_bits())),
            entry("correctness_confidence", EventValue::Number(0.25f32.to_bits())),
            entry("usable_as_is", EventValue::Bool(false)),
            entry("requires_repair", EventValue::Array(vec![Some("tests".to_string()), None, Some("docs".to_string())])),
            entry("estimated_remaining_work", EventValue::Other),
            entry("member_id", EventValue::Text(ID.to_string())),
        ]),
    };
    match parse_delegation_event(&partial, 5) {
        Some(ParsedEvent::TimeoutPartial { partial_quality, .. }) => {
            assert_eq!(f32::from_bits(partial_quality.completeness_bits), 0.5);
            assert_eq!(partial_quality.requires_repair, vec!["tests".to_string(), "docs".to_string()]);
            assert!(partial_quality.estimated_remaining_work.is_none());
        }
        _ => panic!("a partial timeout message is a partial timeout event"),
    }
    let failed = StreamEventMessage {
        type_field: Some("failed".to_string()),
        data: Some(vec![entry("member_id", EventValue::Text(ID.to_string())), entry("error", EventValue::Text("oops".to_string()))]),
    };
    let e = parse_delegation_event(&failed, 5).unwrap();
    assert!(matches!(into_wait_event(e), DelegationEvent::Failed { error } if error == "oops"));
}

#[test]
fn stream_names() {
    let (k, g) = delegation_subscription(ID_VALUE);
    assert_eq!(k, format!("delegation:{}:status", ID));
    assert_eq!(g, "delegation-group");
    let (k, g) = team_subscription(1);
    assert_eq!(k, "team:00000000-0000-0000-0000-000000000001:tasks:shared");
    assert_eq!(g, "team-00000000-0000-0000-0000-000000000001");
    let (k, g) = member_subscription(2);
    assert_eq!(k, "member:00000000-0000-0000-0000-000000000002:tasks");
    assert_eq!(g, "member-00000000-0000-0000-0000-000000000002");
    let l = RedisStreamEventListener::new((), 3);
    assert_eq!(l.consumer_id(), "consumer-00000000-0000-0000-0000-000000000003");
}

#[test]
fn shared_state_records_and_event_actors() {
    let m = SharedTaskStateManager::new(());
    let a = m.artifact_ref(4, PublishScope::Private, "supervisor");
    assert_eq!(a.artifact_id, 4);
    assert_eq!(a.published_by, "supervisor");
    let b1 = m.blocker("stuck", "member");
    let b2 = m.blocker("stuck", "member");
    assert_eq!(b1.description, "stuck");
    assert_ne!(b1.blocker_id, b2.blocker_id);
    let e = TeamEventEmitter::new(());
    assert_eq!(e.actor(TeamEventType::TeamTaskReceived), "system");
    assert_eq!(e.actor(TeamEventType::TeamCompleted), "supervisor");
    assert!(e.names_member(TeamEventType::DelegationCreated));
    assert!(!e.names_member(TeamEventType::TeamFailed));
}

#[test]
fn team_events_name_their_subjects() {
    let e = TeamEventEmitter::new(());
    let created = e.event_for(1, TeamEventType::DelegationCreated, 2, Some(3), vec![9]);
    assert_eq!(created.actor_ref, "supervisor");
    assert_eq!(created.team_task_ref, Some(2));
    assert_eq!(created.related_instance_refs, vec![3]);
    assert!(created.related_artifact_refs.is_empty());
    assert_eq!(created.causal_event_refs, vec![9]);
    let published = e.event_for(1, TeamEventType::ArtifactPublished, 2, Some(4), vec![]);
    assert!(published.related_instance_refs.is_empty());
    assert_eq!(published.related_artifact_refs, vec![4]);
    let received = e.event_for(1, TeamEventType::TeamTaskReceived, 2, None, vec![]);
    assert_eq!(received.actor_ref, "system");
    assert_ne!(created.id, published.id);
}
