use torque_harness::team::supervisor_tools::{
    create_supervisor_tools, SupervisorToolsConfig,
    AcceptResultTool, AddBlockerTool, ArgValue, CompleteTeamTaskTool, DelegateTaskTool, FailTeamTaskTool,
    GetDelegationStatusTool, GetTaskDetailsTool, PublishScope, PublishToTeamTool, RejectResultTool,
    RequestApprovalTool, ResolveBlockerTool, ToolArg, ToolArgError, UpdateSharedFactTool, parse_scope,
};

const DELEGATION: &str = "123e4567-e89b-12d3-a456-426614174000";

fn text(key: &str, value: &str) -> ToolArg {
    ToolArg { key: key.to_string(), value: ArgValue::Text(value.to_string()) }
}

fn other(key: &str, json: &str) -> ToolArg {
    ToolArg { key: key.to_string(), value: ArgValue::Other(json.to_string()) }
}

#[test]
fn supervisor_tools_test_accept_result_tool_name() {
    let tool = AcceptResultTool::new(());
    assert_eq!(tool.name(), "accept_result");
}

#[test]
fn supervisor_tools_test_accept_result_missing_delegation_id() {
    let tool = AcceptResultTool::new(());
    let r = tool.parse(&[]);
    assert!(r.is_err());
}

#[test]
fn supervisor_tools_test_accept_result_success() {
    let tool = AcceptResultTool::new(());
    let args = vec![text("delegation_id", DELEGATION), text("summary", "Work completed")];
    let id = tool.parse(&args).unwrap();
    let result = tool.report(id, true);
    assert!(result.success);
}

#[test]
fn supervisor_tools_test_accept_result_updates_delegation_status() {
    let tool = AcceptResultTool::new(());
    let args = vec![text("delegation_id", DELEGATION), text("summary", "Done")];
    let id = tool.parse(&args).unwrap();
    assert_eq!(id, 0x123e4567_e89b_12d3_a456_426614174000u128);
    assert_eq!(torque_harness::team::supervisor_tools::accepted_status(), "ACCEPTED");
}

#[test]
fn supervisor_tools_test_reject_result_tool_name() {
    let tool = RejectResultTool::new(());
    assert_eq!(tool.name(), "reject_result");
}

#[test]
fn supervisor_tools_test_reject_result_missing_delegation_id() {
    let tool = RejectResultTool::new(());
    let args = vec![text("reason", "Not satisfied")];
    assert!(tool.parse(&args).is_err());
}

#[test]
fn supervisor_tools_test_reject_result_success() {
    let tool = RejectResultTool::new(());
    let args = vec![text("delegation_id", DELEGATION), text("reason", "Not satisfied")];
    let (id, reason) = tool.parse(&args).unwrap();
    assert_eq!(reason, "Not satisfied");
    let result = tool.report(id, reason, true);
    assert!(result.success);
    assert_eq!(result.content, format!("Rejected delegation {}: Not satisfied", DELEGATION));
}

#[test]
fn supervisor_tools_test_get_delegation_status_tool_name() {
    let tool = GetDelegationStatusTool::new(());
    assert_eq!(tool.name(), "get_delegation_status");
}

#[test]
fn supervisor_tools_test_get_delegation_status_missing_delegation_id() {
    let tool = GetDelegationStatusTool::new(());
    assert!(tool.parse(&[]).is_err());
}

#[test]
fn supervisor_tools_test_get_delegation_status_success() {
    let tool = GetDelegationStatusTool::new(());
    let args = vec![text("delegation_id", DELEGATION)];
    let id = tool.parse(&args).unwrap();
    let result = tool.report(id, Some("{\"status\":\"pending\"}".to_string()));
    assert!(result.success);
    assert_eq!(result.content, "{\"status\":\"pending\"}");
}

#[test]
fn accept_report_names_the_delegation() {
    let tool = AcceptResultTool::new(());
    let id = 0x123e4567_e89b_12d3_a456_426614174000u128;
    let ok = tool.report(id, true);
    assert_eq!(ok.content, format!("Accepted delegation: {}", DELEGATION));
    assert_eq!(ok.error, None);
    let missing = tool.report(id, false);
    assert!(!missing.success);
    assert_eq!(missing.content, "");
    assert_eq!(missing.error, Some(format!("Delegation {} not found", DELEGATION)));
}

#[test]
fn required_argument_errors_name_the_field() {
    let tool = AcceptResultTool::new(());
    match tool.parse(&[]) {
        Err(e) => assert_eq!(e.message(), "delegation_id required"),
        Ok(_) => panic!("missing id accepted"),
    }
    let bad = vec![text("delegation_id", "not-a-uuid")];
    match tool.parse(&bad) {
        Err(e) => {
            assert!(matches!(e, ToolArgError::InvalidFormat(_)));
            assert_eq!(e.message(), "Invalid delegation_id format");
        }
        Ok(_) => panic!("bad id accepted"),
    }
    let not_text = vec![other("delegation_id", "42")];
    assert!(matches!(tool.parse(&not_text), Err(ToolArgError::Required(_))));
}

#[test]
fn publish_scopes_are_read_exactly() {
    assert_eq!(parse_scope("private"), Some(PublishScope::Private));
    assert_eq!(parse_scope("team_shared"), Some(PublishScope::TeamShared));
    assert_eq!(parse_scope("external_published"), Some(PublishScope::ExternalPublished));
    assert_eq!(parse_scope("public"), None);
    assert_eq!(parse_scope("Private"), None);
}

#[test]
fn publish_to_team_reports() {
    let tool = PublishToTeamTool::new((), 7);
    assert_eq!(tool.name(), "publish_to_team");
    let args = vec![text("artifact_ref", DELEGATION), text("summary", "the plan"), text("scope", "team_shared")];
    let p = tool.parse(&args).unwrap();
    assert_eq!(p.scope, Some(PublishScope::TeamShared));
    assert_eq!(p.artifact_id, Some(0x123e4567_e89b_12d3_a456_426614174000u128));
    let r = tool.report(&p, true);
    assert_eq!(r.content, format!("Published artifact {} to team_shared scope: the plan", DELEGATION));
    let failed = tool.report(&p, false);
    assert_eq!(failed.error, Some("Failed to publish artifact".to_string()));
    let bad = vec![text("artifact_ref", "notes-7"), text("summary", "s"), text("scope", "everyone")];
    let q = tool.parse(&bad).unwrap();
    assert_eq!(q.artifact_id, None);
    let r2 = tool.report(&q, true);
    assert!(!r2.success);
    assert_eq!(r2.error, Some("Invalid scope: everyone".to_string()));
    let missing = vec![text("artifact_ref", DELEGATION), text("scope", "private")];
    assert!(tool.parse(&missing).is_err());
    let old_key = vec![text("artifact_id", DELEGATION), text("summary", "s"), text("scope", "private")];
    assert!(matches!(tool.parse(&old_key), Err(ToolArgError::Required(_))));
}

#[test]
fn complete_and_fail_task_reports() {
    let complete = CompleteTeamTaskTool::new(());
    assert_eq!(complete.name(), "complete_team_task");
    let args = vec![text("task_id", DELEGATION), text("summary", "all done")];
    let (id, summary) = complete.parse(&args).unwrap();
    assert_eq!(id, Some(0x123e4567_e89b_12d3_a456_426614174000u128));
    assert_eq!(complete.report(id, summary, true).content, format!("Task {} completed: all done", DELEGATION));
    assert_eq!(complete.report(id, summary, false).error, Some(format!("Task {} not found", DELEGATION)));
    assert!(complete.parse(&[text("task_id", DELEGATION)]).is_err());
    let only_summary = vec![text("summary", "all done")];
    let (none, s) = complete.parse(&only_summary).unwrap();
    assert_eq!(none, None);
    assert_eq!(complete.report(none, s, false).content, "Task completed: all done");
    let bad_id = vec![text("task_id", "task-1"), text("summary", "all done")];
    match complete.parse(&bad_id) {
        Err(e) => assert_eq!(e.message(), "Invalid task_id format"),
        Ok(_) => panic!("a task id that is no UUID is refused"),
    }

    let fail = FailTeamTaskTool::new(());
    assert_eq!(fail.name(), "fail_team_task");
    let args = vec![text("task_id", DELEGATION), text("reason", "broken")];
    let (id, reason) = fail.parse(&args).unwrap();
    assert_eq!(fail.report(id, reason, true).content, format!("Task {} failed: broken", DELEGATION));
    assert_eq!(fail.report(id, reason, false).error, Some(format!("Task {} not found", DELEGATION)));
    assert!(fail.parse(&[text("task_id", DELEGATION)]).is_err());
    let only_reason = vec![text("reason", "broken")];
    let (none, r) = fail.parse(&only_reason).unwrap();
    assert_eq!(fail.report(none, r, false).content, "Task failed: broken");
}

#[test]
fn task_details_report() {
    let tool = GetTaskDetailsTool::new(());
    assert_eq!(tool.name(), "get_task_details");
    assert_eq!(tool.description(), "Get details of a team task");
    let id = tool.parse(&[text("task_id", DELEGATION)]).unwrap();
    let missing = tool.report(id, None);
    assert_eq!(missing.error, Some(format!("Task {} not found", DELEGATION)));
    let found = tool.report(id, Some("{\"goal\":\"g\"}".to_string()));
    assert_eq!(found.content, format!("Task details for {}: {{\"goal\":\"g\"}}", DELEGATION));
    assert!(tool.parse(&[]).is_err());
}

#[test]
fn request_approval_needs_tool_and_reason() {
    let tool = RequestApprovalTool::new();
    assert_eq!(tool.name(), "request_approval");
    let ok = tool.execute(&[text("tool_name", "shell"), text("reason", "deletes files")]).unwrap();
    assert!(ok.success);
    assert_eq!(ok.content, "Requested approval for shell: deletes files");
    assert!(tool.execute(&[text("reason", "x")]).is_err());
    assert!(tool.execute(&[text("tool_name", "shell")]).is_err());
}

#[test]
fn shared_fact_and_blocker_reports() {
    let fact = UpdateSharedFactTool::new((), 1);
    assert_eq!(fact.name(), "update_shared_fact");
    let args = vec![text("key", "test_key"), other("value", "{\"a\":1}")];
    let (k, _v) = fact.parse(&args).unwrap();
    assert_eq!(k, "test_key");
    assert_eq!(fact.report("test_key", "{\"a\":1}", true).content, "Updated shared fact: test_key = {\"a\":1}");
    assert!(fact.parse(&[text("key", "k")]).is_err());
    assert!(fact.parse(&[other("value", "1")]).is_err());

    let blocker = AddBlockerTool::new((), 1);
    let (d, s) = blocker.parse(&[text("description", "test blocker")]).unwrap();
    assert_eq!(s, "supervisor");
    assert_eq!(blocker.report(&d, &s, true).content, "Added blocker: test blocker (source: supervisor)");
    let (_, s2) = blocker.parse(&[text("description", "test blocker"), text("source", "member")]).unwrap();
    assert_eq!(s2, "member");
    assert!(blocker.parse(&[]).is_err());

    let resolve = ResolveBlockerTool::new((), 1);
    let id = resolve.parse(&[text("blocker_id", DELEGATION)]).unwrap();
    assert_eq!(resolve.report(id, true).content, format!("Resolved blocker: {}", DELEGATION));
    assert_eq!(resolve.report(id, false).error, Some("Failed to resolve blocker".to_string()));
}

#[test]
fn delegate_task_needs_selector_and_goal() {
    let tool = DelegateTaskTool::new((), (), 1);
    assert_eq!(tool.name(), "delegate_task");
    assert_eq!(tool.description(), "Delegate a task to a team member");
    assert!(tool.parse(&[other("member_selector", "{}")]).is_err());
    assert!(tool.parse(&[text("goal", "test goal")]).is_err());
    let args = vec![other("member_selector", "{}"), text("goal", "test goal")];
    let (g, i) = tool.parse(&args).unwrap();
    assert_eq!(g, "test goal");
    assert!(i.is_none());
    assert_eq!(tool.choose_member(&[]), None);
    assert_eq!(tool.choose_member(&[5, 6]), Some(5));
    assert_eq!(tool.no_member().error, Some("No matching team members found for selector".to_string()));
    let r = tool.report(1, "test goal", 2);
    assert_eq!(
        r.content,
        "Delegated task to member with goal: test goal. Task ID: 00000000-0000-0000-0000-000000000001. Delegation ID: 00000000-0000-0000-0000-000000000002"
    );
}

#[test]
fn test_create_supervisor_tools_returns_all_tools() {
    let config = SupervisorToolsConfig {
        delegation_repo: (),
        selector_resolver: (),
        shared_state: (),
        team_member_repo: (),
        team_task_repo: (),
        team_instance_id: 1,
    };
    let tools = create_supervisor_tools(config);
    let tool_names = tools.names();
    assert_eq!(tool_names.len(), 14);
    assert!(tool_names.contains(&"delegate_task"));
    assert!(tool_names.contains(&"accept_result"));
    assert!(tool_names.contains(&"reject_result"));
    assert!(tool_names.contains(&"publish_to_team"));
    assert!(tool_names.contains(&"get_shared_state"));
    assert!(tool_names.contains(&"complete_team_task"));
    assert!(tool_names.contains(&"list_team_members"));
    assert!(tool_names.contains(&"get_delegation_status"));
    assert!(tool_names.contains(&"update_shared_fact"));
    assert!(tool_names.contains(&"add_blocker"));
    assert!(tool_names.contains(&"resolve_blocker"));
    assert!(tool_names.contains(&"fail_team_task"));
    assert!(tool_names.contains(&"request_approval"));
    assert!(tool_names.contains(&"get_task_details"));
    let report = tools.list_team_members.report("[]".to_string());
    assert!(report.success);
    assert_eq!(report.content, "[]");
}

fn has_property(schema: &torque_harness::team::supervisor_tools::ToolSchema, name: &str) -> bool {
    schema.properties.iter().any(|p| p.name == name)
}

#[test]
fn supervisor_tools_test_accept_result_tool_schema() {
    let tool = AcceptResultTool::new(());
    let schema = tool.parameters_schema();
    assert!(has_property(&schema, "delegation_id"));
}

#[test]
fn supervisor_tools_test_reject_result_tool_schema() {
    let tool = RejectResultTool::new(());
    let schema = tool.parameters_schema();
    assert!(has_property(&schema, "delegation_id"));
    assert!(has_property(&schema, "reason"));
}

#[test]
fn supervisor_tools_test_get_delegation_status_tool_schema() {
    let tool = GetDelegationStatusTool::new(());
    let schema = tool.parameters_schema();
    assert!(has_property(&schema, "delegation_id"));
}

#[test]
fn publish_scope_parameter_lists_its_values() {
    let tool = PublishToTeamTool::new((), 1);
    let schema = tool.parameters_schema();
    let scope = schema.properties.iter().find(|p| p.name == "scope").unwrap();
    assert_eq!(scope.allowed, vec!["private", "team_shared", "external_published"]);
    assert_eq!(schema.required, vec!["artifact_ref", "summary", "scope"]);
}
