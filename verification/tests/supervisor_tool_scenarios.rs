use torque_harness::team::supervisor_tools::{
    AcceptResultTool, AddBlockerTool, ArgValue, CompleteTeamTaskTool, DelegateTaskTool, FailTeamTaskTool,
    GetDelegationStatusTool, GetSharedStateTool, GetTaskDetailsTool, ListTeamMembersTool, PublishToTeamTool,
    RejectResultTool, RequestApprovalTool, ResolveBlockerTool, ToolArg, UpdateSharedFactTool,
};

const ID: &str = "123e4567-e89b-12d3-a456-426614174000";

fn text(key: &str, value: &str) -> ToolArg {
    ToolArg { key: key.to_string(), value: ArgValue::Text(value.to_string()) }
}

fn other(key: &str, json: &str) -> ToolArg {
    ToolArg { key: key.to_string(), value: ArgValue::Other(json.to_string()) }
}

#[test]
fn test_delegate_task_tool_name() {
    let tool = DelegateTaskTool::new((), (), 1);
    assert_eq!(tool.name(), "delegate_task");
}

#[test]
fn test_delegate_task_tool_description() {
    let tool = DelegateTaskTool::new((), (), 1);
    assert_eq!(tool.description(), "Delegate a task to a team member");
}

#[test]
fn test_delegate_task_success() {
    let tool = DelegateTaskTool::new((), (), 1);
    let args = vec![other("member_selector", "{\"selector_type\":\"any\"}"), text("goal", "test goal")];
    let (goal, _) = tool.parse(&args).unwrap();
    let member = tool.choose_member(&[42]);
    assert_eq!(member, Some(42));
    let result = tool.report(7, goal, 8);
    assert!(result.success);
    assert!(result.content.contains("Delegated task to member"));
}

#[test]
fn test_delegate_task_missing_goal() {
    let tool = DelegateTaskTool::new((), (), 1);
    assert!(tool.parse(&[other("member_selector", "{\"selector_type\":\"any\"}")]).is_err());
}

#[test]
fn test_delegate_task_missing_member_selector() {
    let tool = DelegateTaskTool::new((), (), 1);
    assert!(tool.parse(&[text("goal", "test goal")]).is_err());
}

#[test]
fn supervisor_tools_tests_test_accept_result_tool_name() {
    let tool = AcceptResultTool::new(());
    assert_eq!(tool.name(), "accept_result");
}

#[test]
fn supervisor_tools_tests_test_accept_result_success() {
    let tool = AcceptResultTool::new(());
    let id = tool.parse(&[text("delegation_id", ID)]).unwrap();
    let result = tool.report(id, true);
    assert!(result.success);
    assert!(result.content.contains("Accepted delegation"));
}

#[test]
fn supervisor_tools_tests_test_accept_result_missing_delegation_id() {
    let tool = AcceptResultTool::new(());
    assert!(tool.parse(&[]).is_err());
}

#[test]
fn supervisor_tools_tests_test_reject_result_tool_name() {
    let tool = RejectResultTool::new(());
    assert_eq!(tool.name(), "reject_result");
}

#[test]
fn supervisor_tools_tests_test_reject_result_success() {
    let tool = RejectResultTool::new(());
    let args = vec![text("delegation_id", ID), text("reason", "not satisfactory")];
    let (id, reason) = tool.parse(&args).unwrap();
    let result = tool.report(id, reason, true);
    assert!(result.success);
    assert!(result.content.contains("Rejected delegation"));
    assert!(result.content.contains("not satisfactory"));
}

#[test]
fn test_reject_result_missing_reason() {
    let tool = RejectResultTool::new(());
    assert!(tool.parse(&[text("delegation_id", ID)]).is_err());
}

#[test]
fn supervisor_tools_tests_test_reject_result_missing_delegation_id() {
    let tool = RejectResultTool::new(());
    assert!(tool.parse(&[text("reason", "not satisfactory")]).is_err());
}

#[test]
fn test_publish_to_team_tool_name() {
    let tool = PublishToTeamTool::new((), 1);
    assert_eq!(tool.name(), "publish_to_team");
}

#[test]
fn test_publish_to_team_success() {
    let tool = PublishToTeamTool::new((), 1);
    let args = vec![text("artifact_ref", "artifact-123"), text("summary", "test summary"), text("scope", "team_shared")];
    let p = tool.parse(&args).unwrap();
    let result = tool.report(&p, true);
    assert!(result.success);
    assert!(result.content.contains("Published artifact"));
    assert!(result.content.contains("team_shared"));
}

#[test]
fn test_publish_to_team_missing_artifact_ref() {
    let tool = PublishToTeamTool::new((), 1);
    assert!(tool.parse(&[text("summary", "test summary"), text("scope", "team_shared")]).is_err());
}

#[test]
fn test_publish_to_team_missing_summary() {
    let tool = PublishToTeamTool::new((), 1);
    assert!(tool.parse(&[text("artifact_ref", "artifact-123"), text("scope", "team_shared")]).is_err());
}

#[test]
fn test_publish_to_team_missing_scope() {
    let tool = PublishToTeamTool::new((), 1);
    assert!(tool.parse(&[text("artifact_ref", "artifact-123"), text("summary", "test summary")]).is_err());
}

#[test]
fn test_get_shared_state_tool_name() {
    let tool = GetSharedStateTool::new((), 1);
    assert_eq!(tool.name(), "get_shared_state");
}

#[test]
fn test_get_shared_state_success() {
    let tool = GetSharedStateTool::new((), 1);
    let result = tool.report("{\"accepted_artifact_refs\":[],\"published_facts\":[]}".to_string());
    assert!(result.success);
    assert!(result.content.contains("accepted_artifact_refs"));
}

#[test]
fn test_complete_team_task_tool_name() {
    let tool = CompleteTeamTaskTool::new(());
    assert_eq!(tool.name(), "complete_team_task");
}

#[test]
fn test_complete_team_task_success() {
    let tool = CompleteTeamTaskTool::new(());
    let args = vec![text("summary", "task completed successfully")];
    let (task, summary) = tool.parse(&args).unwrap();
    let result = tool.report(task, summary, false);
    assert!(result.success);
    assert!(result.content.contains("Task completed"));
}

#[test]
fn test_complete_team_task_missing_summary() {
    let tool = CompleteTeamTaskTool::new(());
    assert!(tool.parse(&[]).is_err());
}

#[test]
fn test_list_team_members_tool_name() {
    let tool = ListTeamMembersTool::new((), 1);
    assert_eq!(tool.name(), "list_team_members");
}

#[test]
fn test_list_team_members_success() {
    let tool = ListTeamMembersTool::new((), 1);
    let result = tool.report("[]".to_string());
    assert!(result.success);
    assert_eq!(result.content, "[]");
}

#[test]
fn supervisor_tools_tests_test_get_delegation_status_tool_name() {
    let tool = GetDelegationStatusTool::new(());
    assert_eq!(tool.name(), "get_delegation_status");
}

#[test]
fn supervisor_tools_tests_test_get_delegation_status_success() {
    let tool = GetDelegationStatusTool::new(());
    let id = tool.parse(&[text("delegation_id", ID)]).unwrap();
    let result = tool.report(id, Some("{\"status\":\"pending\"}".to_string()));
    assert!(result.success);
    assert!(result.content.contains("pending"));
}

#[test]
fn supervisor_tools_tests_test_get_delegation_status_missing_delegation_id() {
    let tool = GetDelegationStatusTool::new(());
    assert!(tool.parse(&[]).is_err());
}

#[test]
fn test_update_shared_fact_tool_name() {
    let tool = UpdateSharedFactTool::new((), 1);
    assert_eq!(tool.name(), "update_shared_fact");
}

#[test]
fn test_update_shared_fact_success() {
    let tool = UpdateSharedFactTool::new((), 1);
    let args = vec![text("key", "test_key"), text("value", "test_value")];
    let (key, _) = tool.parse(&args).unwrap();
    let result = tool.report(key, "\"test_value\"", true);
    assert!(result.success);
    assert!(result.content.contains("Updated shared fact"));
    assert!(result.content.contains("test_key"));
}

#[test]
fn test_update_shared_fact_missing_key() {
    let tool = UpdateSharedFactTool::new((), 1);
    assert!(tool.parse(&[text("value", "test_value")]).is_err());
}

#[test]
fn test_update_shared_fact_missing_value() {
    let tool = UpdateSharedFactTool::new((), 1);
    assert!(tool.parse(&[text("key", "test_key")]).is_err());
}

#[test]
fn test_add_blocker_tool_name() {
    let tool = AddBlockerTool::new((), 1);
    assert_eq!(tool.name(), "add_blocker");
}

#[test]
fn test_add_blocker_success() {
    let tool = AddBlockerTool::new((), 1);
    let (description, source) = tool.parse(&[text("description", "test blocker")]).unwrap();
    let result = tool.report(&description, &source, true);
    assert!(result.success);
    assert!(result.content.contains("Added blocker"));
    assert!(result.content.contains("test blocker"));
}

#[test]
fn test_add_blocker_with_source() {
    let tool = AddBlockerTool::new((), 1);
    let args = vec![text("description", "test blocker"), text("source", "test_source")];
    let (description, source) = tool.parse(&args).unwrap();
    let result = tool.report(&description, &source, true);
    assert!(result.success);
    assert!(result.content.contains("test blocker"));
    assert!(result.content.contains("test_source"));
}

#[test]
fn test_add_blocker_missing_description() {
    let tool = AddBlockerTool::new((), 1);
    assert!(tool.parse(&[]).is_err());
}

#[test]
fn test_resolve_blocker_tool_name() {
    let tool = ResolveBlockerTool::new((), 1);
    assert_eq!(tool.name(), "resolve_blocker");
}

#[test]
fn test_resolve_blocker_success() {
    let tool = ResolveBlockerTool::new((), 1);
    let id = tool.parse(&[text("blocker_id", ID)]).unwrap();
    let result = tool.report(id, true);
    assert!(result.success);
    assert!(result.content.contains("Resolved blocker"));
}

#[test]
fn test_resolve_blocker_missing_blocker_id() {
    let tool = ResolveBlockerTool::new((), 1);
    assert!(tool.parse(&[]).is_err());
}

#[test]
fn test_fail_team_task_tool_name() {
    let tool = FailTeamTaskTool::new(());
    assert_eq!(tool.name(), "fail_team_task");
}

#[test]
fn test_fail_team_task_success() {
    let tool = FailTeamTaskTool::new(());
    let args = vec![text("reason", "something went wrong")];
    let (task, reason) = tool.parse(&args).unwrap();
    let result = tool.report(task, reason, false);
    assert!(result.success);
    assert!(result.content.contains("Task failed"));
    assert!(result.content.contains("something went wrong"));
}

#[test]
fn test_fail_team_task_missing_reason() {
    let tool = FailTeamTaskTool::new(());
    assert!(tool.parse(&[]).is_err());
}

#[test]
fn test_request_approval_tool_name() {
    let tool = RequestApprovalTool::new();
    assert_eq!(tool.name(), "request_approval");
    assert_eq!(RequestApprovalTool::default().name(), "request_approval");
}

#[test]
fn test_request_approval_success() {
    let tool = RequestApprovalTool::new();
    let args = vec![text("tool_name", "dangerous_tool"), text("reason", "need to delete production data")];
    let result = tool.execute(&args).unwrap();
    assert!(result.success);
    assert!(result.content.contains("Requested approval"));
    assert!(result.content.contains("dangerous_tool"));
}

#[test]
fn test_request_approval_missing_tool_name() {
    let tool = RequestApprovalTool::new();
    assert!(tool.execute(&[text("reason", "need approval")]).is_err());
}

#[test]
fn test_request_approval_missing_reason() {
    let tool = RequestApprovalTool::new();
    assert!(tool.execute(&[text("tool_name", "dangerous_tool")]).is_err());
}

#[test]
fn test_get_task_details_tool_name() {
    let tool = GetTaskDetailsTool::new(());
    assert_eq!(tool.name(), "get_task_details");
}

#[test]
fn test_get_task_details_success() {
    let tool = GetTaskDetailsTool::new(());
    let id = tool.parse(&[text("task_id", ID)]).unwrap();
    let result = tool.report(id, Some("{\"status\":\"open\"}".to_string()));
    assert!(result.success);
    assert!(result.content.contains("Task details for"));
    assert!(result.content.contains(ID));
}

#[test]
fn test_get_task_details_missing_task_id() {
    let tool = GetTaskDetailsTool::new(());
    assert!(tool.parse(&[]).is_err());
}

#[test]
fn test_publish_to_team_with_private_scope() {
    let tool = PublishToTeamTool::new((), 1);
    let args = vec![text("artifact_ref", "artifact-123"), text("summary", "private artifact"), text("scope", "private")];
    let p = tool.parse(&args).unwrap();
    let result = tool.report(&p, true);
    assert!(result.success);
    assert!(result.content.contains("private"));
}

#[test]
fn test_publish_to_team_with_external_scope() {
    let tool = PublishToTeamTool::new((), 1);
    let args = vec![
        text("artifact_ref", "artifact-123"),
        text("summary", "external artifact"),
        text("scope", "external_published"),
    ];
    let p = tool.parse(&args).unwrap();
    let result = tool.report(&p, true);
    assert!(result.success);
    assert!(result.content.contains("external_published"));
}
