use torque_harness::candidates::{
    candidates_from, skips_generation, tool_calls_text, unfence, CandidateGenerationConfig, CandidateGenerator,
    ExecutionSummary, NoOpCandidateGenerator, ToolCallSummary,
};
use torque_harness::delegation::{
    build_delegation_packet, change_event_type, change_result, delegation_stream_key, poll_member_tasks,
    publishes_change, DelegationChange, DelegationRecord, DelegationService, DelegationStatus, LocalMemberAgent,
};
use torque_harness::event_replay::{instance_state_replay, task_state_replay_clears_task, EventReplayRegistry, ReplayHandler};
use torque_harness::gating::{
    candidate_equivalence_facts,
    check_equivalence, classify_reusability, classify_timelessness, decision_name, dedup_action, equivalence_from_reply,
    evaluate_risk, is_specific, make_decision, processed_by, should_check_equivalence, word_counts, DedupAction,
    EquivalenceFacts, EquivalenceResult, GateDecisionType, GateInput, Reusability, ReviewPriority, RiskLevel,
    Timelessness, WriteMode,
};
use torque_harness::governed_tool::{GovernedToolRegistry, PolicyVerdict};
use torque_harness::merge_strategy::{summarize_provenance, AppendStrategy, WithProvenanceStrategy};
use torque_harness::notification::{pipeline_notice, NotificationService, ReviewNotice};
use torque_harness::recovery::{
    anchor_tail, assess_recovery, assess_team_recovery, check_branch_source, child_delegation_ids, count_restored_anchors,
    detect_inconsistencies, normalize_status, plan_team_task_recovery, recovery_result, redelegations, restore_calls, restored_status,
    resume_from, RestoreCall, ResumeFrom,
    AgentInstanceStatus, ContextAnchor, ContextAnchorType, MemberStatus, RecoveryAction, RecoveryDisposition,
    RecoveryError, RecoveryService, TeamRecoveryAction, TeamRecoveryDisposition, TeamTaskStatus,
};
use torque_harness::reflexion::{context_logs, limit_experiences, new_rules, reflection_embedding_text, reflection_rule_name};
use torque_harness::run::{followup_request, next_followup_depth, settle_run, starts_run, RunRequest, RunTaskStatus};
use torque_harness::services::{search_plan, ToolService};
use torque_harness::session::{chat_target, SessionError, SessionRepoCall, SessionService, SessionStatus};
use torque_harness::vfs::{
    normalize_virtual_path, route_backend, validate_edit_occurrences, wildcard_match, workspace_display_path,
    RoutedBackend, ScratchBackend, VfsError, WorkspaceBackend,
};
use torque_harness::webhook::{settle_background_run, RunStatus, WebhookManager, WebhookPayload, WebhookStep};

const ID: &str = "123e4567-e89b-12d3-a456-426614174000";
const ID_VALUE: u128 = 0x123e4567_e89b_12d3_a456_426614174000;

#[test]
fn uuids_are_rendered_and_read_back() {
    assert_eq!(delegation_stream_key(ID_VALUE), format!("delegation:{}:status", ID));
    assert_eq!(child_delegation_ids(&[ID.to_string()]), vec![ID_VALUE]);
    assert_eq!(child_delegation_ids(&["123E4567-E89B-12D3-A456-426614174000".to_string()]), vec![ID_VALUE]);
    assert!(child_delegation_ids(&["not a uuid".to_string()]).is_empty());
    assert_eq!(evaluate_risk("MY PASSWORD").level, RiskLevel::High);
}

fn request(goal: &str) -> RunRequest {
    RunRequest {
        goal: goal.to_string(),
        instructions: Some("be brief".to_string()),
        input_artifacts: vec!["a1".to_string()],
        external_context_refs: vec![],
        constraints: vec!["c".to_string()],
        execution_mode: None,
        expected_outputs: vec![],
        idempotency_key: Some("k".to_string()),
        webhook_url: Some("http://hook".to_string()),
        async_execution: true,
        agent_instance_id: None,
    }
}

#[test]
fn followup_chain_stops_at_depth_three() {
    assert!(starts_run(0));
    assert!(starts_run(2));
    assert!(!starts_run(3));
    assert_eq!(next_followup_depth(0, 2), Some(1));
    assert_eq!(next_followup_depth(2, 0), None);
    let mut depth = 0;
    let mut runs = 0;
    while starts_run(depth) {
        runs += 1;
        match next_followup_depth(depth, 1) {
            Some(d) => depth = d,
            None => break,
        }
    }
    assert_eq!(runs, 3);
    let f = followup_request(&request("ship it"), 77);
    assert_eq!(f.goal, "[followUp] ship it");
    assert_eq!(f.instructions, Some("be brief".to_string()));
    assert_eq!(f.input_artifacts, vec!["a1".to_string()]);
    assert_eq!(f.idempotency_key, None);
    assert_eq!(f.webhook_url, None);
    assert!(!f.async_execution);
    assert_eq!(f.agent_instance_id, Some(77));
}

#[test]
fn runs_settle_by_outcome() {
    let ok = settle_run(true);
    assert_eq!(ok.task_status, RunTaskStatus::Completed);
    assert_eq!(ok.instance_status, AgentInstanceStatus::Ready);
    assert_eq!(ok.checkpoint_status, "READY");
    let bad = settle_run(false);
    assert_eq!(bad.task_status, RunTaskStatus::Failed);
    assert_eq!(bad.instance_status, AgentInstanceStatus::Failed);
    assert_eq!(bad.error_code, Some("EXECUTION_ERROR".to_string()));
}

#[test]
fn risk_is_read_from_the_lowercased_value() {
    let high = evaluate_risk("{\"API_KEYS\":\"x\"}");
    assert_eq!(high.level, RiskLevel::High);
    assert!(high.consent_required);
    assert_eq!(high.review_reason, Some("High-impact field detected".to_string()));
    let medium = evaluate_risk("\"dark Theme please\"");
    assert_eq!(medium.level, RiskLevel::Medium);
    assert!(!medium.consent_required);
    let low = evaluate_risk("\"a personal note\"");
    assert_eq!(low.level, RiskLevel::Low);
    assert!(low.consent_required);
    assert_eq!(low.review_reason, None);
    let plain = evaluate_risk("\"weather\"");
    assert!(!plain.consent_required);
}

#[test]
fn quality_wording_is_classified() {
    assert_eq!(classify_timelessness("Yesterday we always did it"), Timelessness::Temporal);
    assert_eq!(classify_timelessness("Usually works"), Timelessness::Timeless);
    assert_eq!(classify_timelessness("works"), Timelessness::Neutral);
    assert_eq!(classify_reusability("user likes it"), Reusability::General);
    assert_eq!(classify_reusability("temporary fix"), Reusability::Specific);
    assert_eq!(classify_reusability("fix"), Reusability::Neutral);
    assert!(is_specific("port 8080"));
    assert!(is_specific("the CONFIG file"));
    assert!(!is_specific("hello there"));
    assert_eq!(word_counts("a b a  c"), (4, 3));
    assert_eq!(word_counts("   "), (0, 0));
}

#[test]
fn dedup_and_equivalence() {
    assert_eq!(dedup_action(false, true, true), DedupAction::New);
    assert_eq!(dedup_action(true, true, true), DedupAction::Duplicate);
    assert_eq!(dedup_action(true, false, true), DedupAction::Mergeable);
    assert_eq!(dedup_action(true, false, false), DedupAction::New);
    assert!(should_check_equivalence(DedupAction::Mergeable, false, false));
    assert!(!should_check_equivalence(DedupAction::Duplicate, true, false));
    let facts = |same_task, same_agent, a96, a92, b80| EquivalenceFacts {
        time_delta_seconds: Some(10),
        same_task,
        same_agent,
        similarity_above_096: a96,
        similarity_above_092: a92,
        similarity_below_080: b80,
    };
    assert_eq!(check_equivalence(&facts(true, false, true, true, false)), EquivalenceResult::Equivalent);
    assert_eq!(check_equivalence(&facts(false, true, true, true, false)), EquivalenceResult::Mergeable);
    assert_eq!(check_equivalence(&facts(false, false, false, false, true)), EquivalenceResult::Distinct);
    assert_eq!(check_equivalence(&facts(false, false, false, false, false)), EquivalenceResult::Mergeable);
    assert_eq!(equivalence_from_reply(true, true, true, "  Equivalent.\n"), EquivalenceResult::Equivalent);
    assert_eq!(equivalence_from_reply(true, true, true, "CONFLICT"), EquivalenceResult::Conflict);
    assert_eq!(equivalence_from_reply(true, true, true, "mergeable"), EquivalenceResult::Mergeable);
    assert_eq!(equivalence_from_reply(true, true, true, "no idea"), EquivalenceResult::Distinct);
    assert_eq!(equivalence_from_reply(false, true, true, "equivalent"), EquivalenceResult::Distinct);
}

fn gate(pending: bool, dedup: DedupAction, auto: bool) -> GateInput {
    GateInput {
        pending,
        risk_level: RiskLevel::Low,
        consent_required: false,
        review_reason: None,
        dedup,
        similar_entry_id: Some(9),
        external_context: false,
        quality_auto_approvable: auto,
        quality_at_least_075: false,
        quality_at_least_060: true,
        similarity_text: "0.91".to_string(),
        quality_text: "0.65".to_string(),
        threshold_text: "0.80".to_string(),
    }
}

#[test]
fn gate_decisions() {
    let not_pending = make_decision(&gate(false, DedupAction::New, true));
    assert_eq!(not_pending.decision, GateDecisionType::Review);
    assert_eq!(not_pending.priority, Some(ReviewPriority::Low));
    assert_eq!(not_pending.reason, "Candidate not in pending status");
    let approve = make_decision(&gate(true, DedupAction::New, true));
    assert_eq!(approve.decision, GateDecisionType::Approve);
    assert_eq!(approve.write_mode, Some(WriteMode::Insert));
    let dup = make_decision(&gate(true, DedupAction::Duplicate, true));
    assert_eq!(dup.decision, GateDecisionType::Reject);
    assert_eq!(dup.reason, "Duplicate of existing memory (similarity: 0.91)");
    let merge = make_decision(&gate(true, DedupAction::Mergeable, true));
    assert_eq!(merge.decision, GateDecisionType::Merge);
    assert_eq!(merge.write_mode, Some(WriteMode::MergeSummarize { target_id: 9 }));
    assert_eq!(merge.target_entry_id, Some(9));
    let review = make_decision(&gate(true, DedupAction::New, false));
    assert_eq!(review.decision, GateDecisionType::Review);
    assert_eq!(review.priority, Some(ReviewPriority::Medium));
    assert_eq!(review.reason, "Quality 0.65 below auto-approve threshold 0.80");
    let mut risky = gate(true, DedupAction::New, true);
    risky.consent_required = true;
    let r = make_decision(&risky);
    assert_eq!(r.decision, GateDecisionType::Review);
    assert_eq!(r.reason, "High risk or consent required");
    assert_eq!(decision_name(GateDecisionType::Merge), "merge");
    assert_eq!(processed_by(GateDecisionType::Reject), "dedup");
    assert_eq!(processed_by(GateDecisionType::Review), "policy");
}

#[test]
fn recovery_assessment() {
    assert_eq!(normalize_status("WaitingApproval"), "WAITING_APPROVAL");
    assert_eq!(normalize_status("WAITING_TOOL"), "WAITING_TOOL");
    let a = assess_recovery(1, 2, Some("WaitingApproval"), 100, &[50, 90]);
    assert_eq!(a.disposition, RecoveryDisposition::AwaitingApproval);
    assert!(!a.requires_replay);
    assert_eq!(a.recommended_action, RecoveryAction::AwaitApprovalDecision);
    let b = assess_recovery(1, 2, Some("Completed"), 100, &[150]);
    assert!(b.requires_replay);
    assert_eq!(b.recommended_action, RecoveryAction::ReplayTailEvents);
    assert!(b.is_terminal());
    let c = assess_recovery(1, 2, None, 100, &[]);
    assert_eq!(c.disposition, RecoveryDisposition::ResumeCurrent);
    assert_eq!(restored_status("Running"), AgentInstanceStatus::Running);
    assert_eq!(restored_status("whatever"), AgentInstanceStatus::Created);
}

#[test]
fn team_recovery() {
    let members = vec![
        MemberStatus { id: 1, status: "Failed".to_string() },
        MemberStatus { id: 2, status: "Running".to_string() },
    ];
    let a = assess_team_recovery(7, &members);
    assert_eq!(a.disposition, TeamRecoveryDisposition::TeamDegraded);
    assert_eq!(a.failed_member_ids, vec![1]);
    assert_eq!(a.recommendation, "Team is degraded with 1 failed members out of 2. Consider retry or replacement.");
    let all_failed = vec![MemberStatus { id: 1, status: "failed".to_string() }];
    assert_eq!(assess_team_recovery(7, &all_failed).disposition, TeamRecoveryDisposition::TeamFailed);
    assert_eq!(assess_team_recovery(7, &[]).disposition, TeamRecoveryDisposition::TeamHealthy);
    let p = plan_team_task_recovery(TeamTaskStatus::Failed, 2);
    assert_eq!(p, (TeamRecoveryAction::Retry, TeamTaskStatus::Open, Some(3)));
    let q = plan_team_task_recovery(TeamTaskStatus::Failed, 3);
    assert_eq!(q.0, TeamRecoveryAction::EscalateToSupervisor);
    assert_eq!(plan_team_task_recovery(TeamTaskStatus::Open, 0).0, TeamRecoveryAction::NoOp);
}

#[test]
fn anchored_restore() {
    let found = detect_inconsistencies(5, Some("WaitingTool"), "RUNNING", 0, &[ContextAnchorType::MemoryEntry]);
    assert_eq!(found.len(), 2);
    assert_eq!(found[0].description, "State mismatch: checkpoint=WAITING_TOOL, current=RUNNING");
    assert_eq!(found[1].anchor_type, ContextAnchorType::EventAnchor);
    let n = count_restored_anchors(
        true,
        &[ContextAnchorType::MemoryEntry, ContextAnchorType::Artifact, ContextAnchorType::SharedState],
        &[false, false, true],
    );
    assert_eq!(n, 2);
    assert_eq!(count_restored_anchors(false, &[ContextAnchorType::Artifact], &[true]), 0);
    let anchors = [
        ContextAnchor { anchor_type: ContextAnchorType::MemoryEntry, reference_id: 1 },
        ContextAnchor { anchor_type: ContextAnchorType::EventAnchor, reference_id: 20 },
    ];
    assert_eq!(anchor_tail(&anchors, &[10, 20, 30, 40], &[5, 7, 9, 6]), vec![2]);
    assert!(anchor_tail(&anchors, &[10, 30], &[5, 9]).is_empty());
    let tail = anchor_tail(&anchors, &[10, 20, 30, 40, 50], &[5, 7, 9, 6, 8]);
    assert_eq!(tail, vec![2, 4]);
    let r = recovery_result(3, 2, &tail, &[true, false], &found);
    assert_eq!(r.events_replayed, 1);
    assert_eq!(r.restored_anchors, 2);
    assert_eq!(r.checkpoint_id, 3);
    assert_eq!(recovery_result(3, 0, &[], &[], &found).events_replayed, 0);
    assert_eq!(r.inconsistencies_found, 2);
    assert_eq!(r.resolutions_applied, 2);
}

#[test]
fn reconciliation_and_branching() {
    let ids = vec![ID.to_string(), "junk".to_string()];
    assert_eq!(child_delegation_ids(&ids), vec![ID_VALUE]);
    let statuses = [Some(AgentInstanceStatus::Failed), None, Some(AgentInstanceStatus::Completed), Some(AgentInstanceStatus::Failed)];
    assert_eq!(redelegations(&statuses), 2);
    assert!(check_branch_source(1, 2, 2).is_ok());
    match check_branch_source(ID_VALUE, 2, 3) {
        Err(e) => assert_eq!(
            e.message(),
            format!("Checkpoint {} does not belong to instance 00000000-0000-0000-0000-000000000003", ID)
        ),
        Ok(()) => panic!("a checkpoint of another instance is refused"),
    }
    let svc: RecoveryService<u8, ()> = RecoveryService::new(1, 2, 3);
    assert!(!svc.has_memory_repo());
    assert!(matches!(svc.member_repo(), Err(RecoveryError::MemberRepositoryNotConfigured)));
    let svc = svc.with_repo_v1(4).with_team_repos(5, 6);
    assert!(svc.has_memory_repo());
    assert_eq!(svc.member_repo().ok(), Some(&5));
    assert_eq!(svc.task_repo().ok(), Some(&6));
    assert!(svc.event_registry().handler("instance_state_changed").is_some());
}

#[test]
fn replay_registry_lookup_after_register() {
    let mut r: EventReplayRegistry<u8> = EventReplayRegistry::new();
    assert!(matches!(r.handler("task_state_changed"), Some(ReplayHandler::TaskStateChanged)));
    r.register("custom.event", ReplayHandler::Custom(7));
    assert!(matches!(r.handler("custom.event"), Some(ReplayHandler::Custom(7))));
    r.register("task_state_changed", ReplayHandler::NoOp);
    assert!(matches!(r.handler("task_state_changed"), Some(ReplayHandler::NoOp)));
    assert!(r.handler("unknown").is_none());
    assert_eq!(instance_state_replay(Some("Ready")), Some(AgentInstanceStatus::Ready));
    assert!(task_state_replay_clears_task(Some("Completed")));
    assert!(!task_state_replay_clears_task(Some("COMPLETED")));
    assert!(!task_state_replay_clears_task(None));
}

#[test]
fn scratch_reads_back_what_was_written() {
    let mut s = ScratchBackend::new();
    assert!(s.write("/scratch/a.txt", "one\ntwo").is_ok());
    assert_eq!(s.read("/scratch/a.txt").ok(), Some("one\ntwo".to_string()));
    assert!(s.read("/scratch/missing").is_err());
    assert!(s.write("/workspace/a.txt", "x").is_err());
    let e = s.edit("/scratch/a.txt", "two", "2", false).ok().unwrap();
    assert_eq!(e.occurrences, 1);
    assert_eq!(s.read("/scratch/a.txt").ok(), Some("one\n2".to_string()));
    match s.edit("/scratch/a.txt", "zzz", "y", false) {
        Err(err) => assert_eq!(err.message(), "edit_file could not find 'zzz' in /scratch/a.txt"),
        Ok(_) => panic!("an edit without a match is refused"),
    }
    let g = s.grep("/scratch", "2").ok().unwrap();
    assert_eq!(g.len(), 1);
    assert_eq!(g[0].line, 2);
    let listing = s.glob("/scratch", "*.txt").ok().unwrap();
    assert_eq!(listing.len(), 1);
    assert_eq!(listing[0].path, "/scratch/a.txt");
}

#[test]
fn paths_are_routed_and_resolved() {
    assert_eq!(route_backend("/scratch/x").ok(), Some(RoutedBackend::Scratch));
    assert_eq!(route_backend("/workspace").ok(), Some(RoutedBackend::Workspace));
    assert!(matches!(route_backend("/etc/passwd"), Err(VfsError::UnsupportedPath { .. })));
    assert_eq!(normalize_virtual_path("/scratch/dir//"), "/scratch/dir");
    assert!(wildcard_match("notes.md", "*.md"));
    assert!(wildcard_match("a.rs", "?.rs"));
    assert!(!wildcard_match("a.rs", "*.md"));
    assert!(validate_edit_occurrences("/p", "x", false, 1).is_ok());
    assert!(validate_edit_occurrences("/p", "x", false, 2).is_err());
    assert!(validate_edit_occurrences("/p", "x", true, 2).is_ok());
    let w = WorkspaceBackend::new("/home/me/project".to_string());
    assert_eq!(w.resolve("/workspace/src/lib.rs").ok(), Some("/home/me/project/src/lib.rs".to_string()));
    assert_eq!(workspace_display_path("src/lib.rs"), "/workspace/src/lib.rs");
}

#[test]
fn sessions_compaction_registry() {
    let mut s: SessionService<(), u32> = SessionService::new(());
    assert!(matches!(s.begin_compaction(1, SessionStatus::Terminated, 9, 100), Err(SessionError::CannotCompact(_))));
    let (resp, calls) = s.begin_compaction(1, SessionStatus::Active, 9, 100).ok().unwrap();
    assert_eq!(resp.status, "compacting");
    assert_eq!(resp.job_id, 9);
    assert_eq!(calls, vec![SessionRepoCall::UpdateStatus(SessionStatus::Compacting), SessionRepoCall::SetCompactionJob(Some(9))]);
    assert!(matches!(s.abort_compaction(1, SessionStatus::Active, Some(9)), Err(SessionError::NotCompacting(_))));
    let (tok, abort, calls) = s.abort_compaction(1, SessionStatus::Compacting, Some(9)).ok().unwrap();
    assert_eq!(tok, Some(100));
    assert_eq!(abort.status, "aborted");
    assert_eq!(abort.job_id, Some(9));
    assert_eq!(calls, vec![SessionRepoCall::UpdateStatus(SessionStatus::Active), SessionRepoCall::SetCompactionJob(None)]);
    let (again, _, _) = s.abort_compaction(1, SessionStatus::Compacting, Some(9)).ok().unwrap();
    assert_eq!(again, None);
    let _ = s.begin_compaction(3, SessionStatus::Active, 12, 300);
    let (done, calls) = s.finish_compaction(3);
    assert_eq!(done, Some(300));
    assert_eq!(calls, vec![SessionRepoCall::UpdateStatus(SessionStatus::Active), SessionRepoCall::SetCompactionJob(None)]);
    let _ = s.begin_compaction(2, SessionStatus::Compacting, 10, 200);
    let _ = s.begin_compaction(2, SessionStatus::Compacting, 11, 201);
    assert_eq!(s.take_job(2), Some(201));
    assert_eq!(chat_target(5, true, SessionStatus::Active, None).ok(), Some(5));
    assert_eq!(chat_target(5, true, SessionStatus::Active, Some(8)).ok(), Some(8));
    assert!(chat_target(5, false, SessionStatus::Terminated, Some(8)).is_err());
}

#[test]
fn webhooks_retry_with_doubling_waits() {
    let m = WebhookManager::new(3, 1000);
    assert_eq!(m.attempts(), 4);
    let mut attempt = 1;
    let mut delay = m.base_delay_ms;
    let mut waits = vec![];
    loop {
        match m.after_attempt(attempt, delay, false) {
            WebhookStep::RetryAfter { wait_ms, next_delay_ms } => {
                waits.push(wait_ms);
                delay = next_delay_ms;
                attempt += 1;
            }
            WebhookStep::GiveUp => break,
            WebhookStep::Delivered => panic!("nothing was delivered"),
        }
    }
    assert_eq!(attempt, m.attempts());
    assert_eq!(waits, vec![1000, 2000, 4000]);
    assert_eq!(m.after_attempt(1, 1000, true), WebhookStep::Delivered);
    let p = settle_background_run(Some("boom".to_string()), true);
    assert_eq!(p.status, RunStatus::Failed);
    assert_eq!(p.webhook_status, Some("failed".to_string()));
    let q = settle_background_run(None, false);
    assert_eq!(q.status, RunStatus::Completed);
    assert_eq!(q.webhook_status, None);
    let payload = WebhookPayload::new(1, "completed", None);
    assert_eq!(payload.status, "completed");
}

#[test]
fn delegation_packets_and_changes() {
    let p = build_delegation_packet("goal", Some("   "), vec![], vec![], vec![], Some("summary"), vec!["fact".to_string()]);
    assert_eq!(p.goal, "goal");
    assert_eq!(p.instructions, None);
    assert_eq!(p.compact_summary, Some("summary".to_string()));
    assert_eq!(p.key_facts, vec!["fact".to_string()]);
    assert_eq!(delegation_stream_key(ID_VALUE), format!("delegation:{}:status", ID));
    assert_eq!(change_event_type(DelegationChange::Rejected), "rejected");
    assert!(publishes_change(true, true, true));
    assert!(!publishes_change(true, true, false));
    assert!(!change_result(false, true));
    let svc: DelegationService<(), u8> = DelegationService::new(());
    assert!(!svc.has_stream_bus());
    assert!(svc.with_stream_bus(1).has_stream_bus());
    let ds = vec![
        DelegationRecord { id: 1, task_id: 11, status: DelegationStatus::Pending, goal: Some("g1".to_string()), instructions: None, created_at_micros: 0 },
        DelegationRecord { id: 2, task_id: 12, status: DelegationStatus::Completed, goal: Some("g2".to_string()), instructions: None, created_at_micros: 0 },
        DelegationRecord { id: 3, task_id: 13, status: DelegationStatus::Accepted, goal: None, instructions: None, created_at_micros: 0 },
        DelegationRecord { id: 4, task_id: 14, status: DelegationStatus::Accepted, goal: Some("g4".to_string()), instructions: Some("i".to_string()), created_at_micros: 0 },
    ];
    let ts = poll_member_tasks(&ds);
    assert_eq!(ts.len(), 2);
    assert_eq!(ts[0].delegation_id, 1);
    assert_eq!(ts[1].goal, "g4");
    assert_eq!(ts[1].instructions, Some("i".to_string()));
    let agent = LocalMemberAgent::new(5, (), ());
    assert!(agent.health_check().is_healthy);
    assert!(!agent.request_extension(30));
}

fn summary(calls: Vec<(&str, &str)>) -> ExecutionSummary {
    ExecutionSummary {
        task_id: 1,
        agent_instance_id: 2,
        goal: "g".to_string(),
        output_summary: "o".to_string(),
        tool_calls: calls.into_iter().map(|(n, i)| ToolCallSummary { tool_name: n.to_string(), input: i.to_string() }).collect(),
    }
}

#[test]
fn candidate_generation_rules() {
    let config = CandidateGenerationConfig {
        enabled: true,
        max_candidates_per_execution: 2,
        min_content_length: 10,
        excluded_tools: vec!["read_file".to_string()],
    };
    assert!(skips_generation(&config, &summary(vec![("read_file", "{}")])));
    assert!(!skips_generation(&config, &summary(vec![("read_file", "{}"), ("write", "{}")])));
    let off = CandidateGenerationConfig { enabled: false, ..config };
    assert!(skips_generation(&off, &summary(vec![])));
    let s = summary(vec![("a", "1"), ("b", "2")]);
    assert_eq!(tool_calls_text(&s.tool_calls), "- a: 1\n- b: 2");
    assert_eq!(unfence("  ```json\n[1]\n```  "), "[1]");
    assert_eq!(unfence(" [2] "), "[2]");
    let cs = candidates_from(&s, 2, vec!["{}".to_string(), "{\"a\":1}".to_string(), "[]".to_string()]);
    assert_eq!(cs.len(), 2);
    assert_eq!(cs[1].content_json, "{\"a\":1}");
    assert_eq!(cs[0].reasoning, "Extracted from task '00000000-0000-0000-0000-000000000001' - g");
    let none = NoOpCandidateGenerator.generate_candidates(&s, &off);
    assert!(none.is_empty());
}

#[test]
fn merge_provenance() {
    assert!(AppendStrategy.appends(&["1".to_string()], "2"));
    assert!(!AppendStrategy.appends(&["1".to_string(), "2".to_string()], "2"));
    let p = AppendStrategy.provenance(ID_VALUE);
    assert_eq!(p[0].source, ID);
    assert_eq!(p[0].method, "append");
    let w = WithProvenanceStrategy.provenance(p, "k");
    assert_eq!(w.len(), 2);
    assert_eq!(w[1].source, "k");
    assert_eq!(w[1].method, "merged");
    assert!(w[1].timestamp_micros.is_some());
    let s = summarize_provenance(1, "key");
    assert_eq!(s[0].method, "original");
    assert_eq!(s[1].method, "summarized");
}

#[test]
fn reflexion_helpers() {
    assert_eq!(context_logs(&[1, 2, 1, 3], 1), vec![1, 3]);
    assert_eq!(reflection_rule_name(1), "reflection-00000000-0000-0000-0000-000000000001");
    assert_eq!(reflection_embedding_text("cause", &vec!["a".to_string(), "b".to_string()]), "cause: a b");
    assert_eq!(new_rules(&[Some(5), None], &[5, 6, 7]), vec![1, 2]);
}

#[test]
fn a_rule_listed_twice_joins_once() {
    assert_eq!(new_rules(&[Some(5)], &[6, 5, 6, 7, 7]), vec![0, 3]);
    assert_eq!(new_rules(&[], &[9, 9, 9]), vec![0]);
    assert_eq!(new_rules(&[Some(1)], &[]), Vec::<usize>::new());
}

#[test]
fn retrieved_experiences_keep_the_first_limit() {
    let mut v = vec!["a", "b", "c"];
    limit_experiences(&mut v, 2);
    assert_eq!(v, vec!["a", "b"]);
    let mut w = vec!["a"];
    limit_experiences(&mut w, 5);
    assert_eq!(w, vec!["a"]);
    let mut z = vec!["a", "b"];
    limit_experiences(&mut z, 0);
    assert!(z.is_empty());
}

#[test]
fn default_notification_service_has_no_hooks() {
    let n = NotificationService::default();
    assert!(!n.can_subscribe());
    assert!(!NotificationService::new().can_subscribe());
}

#[test]
fn notifications_and_governance() {
    let n = NotificationService::new().with_webhook_hook("http://h".to_string()).with_sse_hook();
    assert!(n.can_subscribe());
    assert_eq!(n.hook_list().len(), 2);
    assert!(!NotificationService::new().can_subscribe());
    assert_eq!(pipeline_notice(GateDecisionType::Merge, None, 1), None);
    assert_eq!(pipeline_notice(GateDecisionType::Merge, Some(4), 1), Some(ReviewNotice::CandidateMerged { target_id: 4 }));
    assert_eq!(pipeline_notice(GateDecisionType::Reject, None, 1), Some(ReviewNotice::CandidateRejected { candidate_id: 1 }));
    let g = GovernedToolRegistry::new((), ());
    let blocked = g.gate(Some("blocked tool".to_string()), None).unwrap();
    assert_eq!(blocked.error, Some("blocked tool".to_string()));
    let denied = g.gate(None, Some(PolicyVerdict { allowed: false, first_reason: None, requires_approval: false })).unwrap();
    assert_eq!(denied.error, Some("Tool blocked by policy".to_string()));
    let approval = g.gate(None, Some(PolicyVerdict { allowed: true, first_reason: None, requires_approval: true })).unwrap();
    assert_eq!(approval.content, "TOOL_REQUIRES_APPROVAL");
    assert!(g.gate(None, Some(PolicyVerdict { allowed: true, first_reason: None, requires_approval: false })).is_none());
    assert!(g.gate(None, None).is_none());
    let (hybrid, limit) = search_plan(None, None);
    assert!(hybrid);
    assert_eq!(limit, 10);
    let t: ToolService<u8, u8, u8> = ToolService::new(1);
    assert!(t.artifact_service().is_none());
    assert_eq!(*t.registry(), 1);
}

#[test]
fn candidate_facts_share_the_agent_only() {
    let f = candidate_equivalence_facts(true, true, false);
    assert!(f.same_agent);
    assert!(!f.same_task);
    assert_eq!(check_equivalence(&f), EquivalenceResult::Mergeable);
    assert_eq!(check_equivalence(&candidate_equivalence_facts(false, false, true)), EquivalenceResult::Distinct);
}

#[test]
fn run_checkpoints() {
    let p = torque_harness::run::checkpoint_plan(1, Some(2), Some("FAILED"));
    assert_eq!(p.node_id, 2);
    assert_eq!(p.instance_state, "FAILED");
    assert_eq!(p.reason, "run_service");
    let q = torque_harness::run::checkpoint_plan(1, None, None);
    assert_eq!(q.node_id, 1);
    assert_eq!(q.instance_state, "Ready");
    assert_eq!(torque_harness::run::initial_run_message(), "Run request execution");
}

#[test]
fn background_runner_retries_webhooks_three_times() {
    let runner = torque_harness::webhook::AsyncRunner::new((), ());
    assert_eq!(runner.webhook_manager().max_retries, 3);
    assert_eq!(runner.webhook_manager().base_delay_ms, 1000);
    assert_eq!(runner.recorded_webhook_attempts(), 4);
}

#[test]
fn new_sessions_are_active() {
    let s = torque_harness::session::new_session(1, 2, Some("t".to_string()), None);
    assert_eq!(s.status, SessionStatus::Active);
    assert_eq!(s.metadata_json, "{}");
    assert_eq!(s.agent_instance_id, None);
    assert_eq!(s.created_at_micros, s.updated_at_micros);
}

#[test]
fn deleting_a_session_cancels_its_job_and_deletes_without_a_status_update() {
    let mut s: SessionService<(), u32> = SessionService::new(());
    let _ = s.begin_compaction(4, SessionStatus::Active, 9, 77);
    let (tok, calls) = s.delete_session(4);
    assert_eq!(tok, Some(77));
    assert_eq!(calls, vec![SessionRepoCall::Delete]);
    let (again, calls) = s.delete_session(4);
    assert_eq!(again, None);
    assert_eq!(calls, vec![SessionRepoCall::Delete]);
}

#[test]
fn restoring_sets_the_status_then_replays_later_events_in_order() {
    let calls = restore_calls(Some("waitingTool"), &[5, 20, 8, 30], 10, true);
    assert_eq!(
        calls,
        vec![
            RestoreCall::SetStatus(AgentInstanceStatus::WaitingTool),
            RestoreCall::Replay(1),
            RestoreCall::Replay(3),
            RestoreCall::Reconcile,
        ]
    );
    let branch = restore_calls(None, &[11, 3], 10, false);
    assert_eq!(branch, vec![RestoreCall::Replay(0)]);
    assert_eq!(restore_calls(Some("done"), &[], 0, true), vec![RestoreCall::SetStatus(AgentInstanceStatus::Created), RestoreCall::Reconcile]);
}

#[test]
fn resuming_starts_from_the_latest_checkpoint() {
    assert_eq!(resume_from(Some(4)), ResumeFrom::Checkpoint(4));
    assert_eq!(resume_from(None), ResumeFrom::CurrentState);
}

#[test]
fn clock_readings_become_signed_micros() {
    assert_eq!(torque_harness::clock::clock_micros(false, 1_700_000_000_000_000), 1_700_000_000_000_000);
    assert_eq!(torque_harness::clock::clock_micros(true, 5), -5);
    assert_eq!(torque_harness::clock::clock_micros(true, 0x8000_0000_0000_0000), i64::MIN);
    assert_eq!(torque_harness::clock::clock_micros(true, u128::MAX), i64::MIN);
    assert_eq!(torque_harness::clock::clock_micros(false, u128::MAX), i64::MAX);
}
