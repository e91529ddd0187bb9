//! The supervisor agent's tools: their names and descriptions, how each reads its
//! arguments, and the result it reports for what the repositories answered.
//! Arguments arrive as a JSON object's entries: a text value, or another value with
//! its JSON rendering.

use vstd::prelude::*;
use crate::ids::{parse_uuid, parsed_uuid, uuid_string, uuid_text};
use crate::text::{join2, join3, join4, join6};

verus! {

/// The value of one tool argument: a JSON string, or any other JSON value with its
/// rendering.
pub enum ArgValue {
    Text(String),
    Other(String),
}

/// One entry of a tool's argument object.
pub struct ToolArg {
    pub key: String,
    pub value: ArgValue,
}

/// What a tool reports.
pub struct ToolResult {
    pub success: bool,
    pub content: String,
    pub error: Option<String>,
}

/// A tool's result as plain values.
pub struct ToolResultView {
    pub success: bool,
    pub content: Seq<char>,
    pub error: Option<Seq<char>>,
}

impl View for ToolResult {
    type V = ToolResultView;

    open spec fn view(&self) -> ToolResultView {
        ToolResultView {
            success: self.success,
            content: self.content@,
            error: match self.error {
                Some(e) => Some(e@),
                None => None,
            },
        }
    }
}

pub open spec fn succeeded(content: Seq<char>) -> ToolResultView {
    ToolResultView { success: true, content, error: None }
}

pub open spec fn failed(error: Seq<char>) -> ToolResultView {
    ToolResultView { success: false, content: seq![], error: Some(error) }
}

fn ok_result(content: String) -> (r: ToolResult)
    ensures
        r@ == succeeded(content@),
{
    ToolResult { success: true, content, error: None }
}

fn failed_result(error: String) -> (r: ToolResult)
    ensures
        r@ == failed(error@),
{
    ToolResult { success: false, content: String::new(), error: Some(error) }
}

/// Why a tool refused its arguments.
#[derive(Debug)]
pub enum ToolArgError {
    /// The named argument is missing, or is not of the kind the tool needs.
    Required(String),
    /// The named argument is not a UUID.
    InvalidFormat(String),
}

impl ToolArgError {
    /// The error's message.
    pub fn message(&self) -> (m: String)
        ensures
            m@ == match *self {
                ToolArgError::Required(f) => f@ + " required"@,
                ToolArgError::InvalidFormat(f) => "Invalid "@ + f@ + " format"@,
            },
    {
        match self {
            ToolArgError::Required(f) => join2(f.as_str(), " required"),
            ToolArgError::InvalidFormat(f) => join3("Invalid ", f.as_str(), " format"),
        }
    }
}

/// The error for a missing argument `k`.
pub open spec fn is_required_error(e: ToolArgError, k: Seq<char>) -> bool {
    &&& e matches ToolArgError::Required(f)
    &&& e->Required_0@ == k
}

/// The error for an argument `k` that is not a UUID.
pub open spec fn is_format_error(e: ToolArgError, k: Seq<char>) -> bool {
    &&& e matches ToolArgError::InvalidFormat(f)
    &&& e->InvalidFormat_0@ == k
}

pub open spec fn arg_view(a: ToolArg) -> (Seq<char>, Option<Seq<char>>, Seq<char>) {
    match a.value {
        ArgValue::Text(t) => (a.key@, Some(t@), t@),
        ArgValue::Other(j) => (a.key@, None, j@),
    }
}

/// The arguments as plain values: each key, its text if it is a JSON string, and its
/// rendering.
pub open spec fn args_view(args: Seq<ToolArg>) -> Seq<(Seq<char>, Option<Seq<char>>, Seq<char>)> {
    args.map_values(|a: ToolArg| arg_view(a))
}

/// The first entry with key `k`.
pub open spec fn entry_of(args: Seq<(Seq<char>, Option<Seq<char>>, Seq<char>)>, k: Seq<char>) -> Option<(Option<Seq<char>>, Seq<char>)>
    decreases args.len(),
{
    if args.len() == 0 {
        None
    } else if args[0].0 == k {
        Some((args[0].1, args[0].2))
    } else {
        entry_of(args.drop_first(), k)
    }
}

/// The text of argument `k`, if it is present and a JSON string.
pub open spec fn text_arg(args: Seq<(Seq<char>, Option<Seq<char>>, Seq<char>)>, k: Seq<char>) -> Option<Seq<char>> {
    match entry_of(args, k) {
        Some((t, _)) => t,
        None => None,
    }
}

fn find_arg<'a>(args: &'a [ToolArg], key: &str) -> (r: Option<&'a ArgValue>)
    ensures
        entry_of(args_view(args@), key@) is None <==> r is None,
        r matches Some(v) ==> entry_of(args_view(args@), key@) == Some(match *v {
            ArgValue::Text(t) => (Some(t@), t@),
            ArgValue::Other(j) => (None::<Seq<char>>, j@),
        }),
{
    let ghost av = args_view(args@);
    assert(av.subrange(0, av.len() as int) =~= av);
    let mut i: usize = 0;
    while i < args.len()
        invariant
            i <= args@.len(),
            av == args_view(args@),
            entry_of(av, key@) == entry_of(av.subrange(i as int, av.len() as int), key@),
        decreases args@.len() - i,
    {
        let ghost rest = av.subrange(i as int, av.len() as int);
        assert(rest.drop_first() =~= av.subrange(i + 1, av.len() as int));
        assert(rest[0] == arg_view(args@[i as int]));
        if crate::text::text_is(args[i].key.as_str(), key) {
            return Some(&args[i].value);
        }
        i = i + 1;
    }
    assert(av.subrange(i as int, av.len() as int) =~= Seq::<(Seq<char>, Option<Seq<char>>, Seq<char>)>::empty());
    None
}

/// The text of a required string argument.
pub fn required_text<'a>(args: &'a [ToolArg], key: &str) -> (r: Result<&'a String, ToolArgError>)
    ensures
        text_arg(args_view(args@), key@) is Some <==> r is Ok,
        r matches Ok(t) ==> Some(t@) == text_arg(args_view(args@), key@),
        r matches Err(e) ==> is_required_error(e, key@),
{
    match find_arg(args, key) {
        Some(ArgValue::Text(t)) => Ok(t),
        _ => Err(ToolArgError::Required(key.to_string())),
    }
}

/// A required argument that holds a UUID.
pub open spec fn id_arg(args: Seq<(Seq<char>, Option<Seq<char>>, Seq<char>)>, k: Seq<char>) -> Option<u128> {
    match text_arg(args, k) {
        Some(t) => parsed_uuid(t),
        None => None,
    }
}

/// The UUID in a required string argument.
pub fn required_id(args: &[ToolArg], key: &str) -> (r: Result<u128, ToolArgError>)
    ensures
        id_arg(args_view(args@), key@) is Some <==> r is Ok,
        r matches Ok(id) ==> Some(id) == id_arg(args_view(args@), key@),
        r matches Err(e) ==> (text_arg(args_view(args@), key@) is None ==> is_required_error(e, key@))
            && (text_arg(args_view(args@), key@) is Some ==> is_format_error(e, key@)),
{
    let t = match required_text(args, key) {
        Ok(t) => t,
        Err(e) => { return Err(e); },
    };
    match parse_uuid(t.as_str()) {
        Some(id) => Ok(id),
        None => Err(ToolArgError::InvalidFormat(key.to_string())),
    }
}

/// Whether a required argument of any kind is present.
pub fn has_arg(args: &[ToolArg], key: &str) -> (r: bool)
    ensures
        r == entry_of(args_view(args@), key@) is Some,
{
    find_arg(args, key).is_some()
}

/// The UUID in an optional string argument: `None` when it is absent.
pub fn optional_id(args: &[ToolArg], key: &str) -> (r: Result<Option<u128>, ToolArgError>)
    ensures
        r is Ok <==> (text_arg(args_view(args@), key@) is None || id_arg(args_view(args@), key@) is Some),
        r matches Ok(id) ==> id == id_arg(args_view(args@), key@),
        r matches Err(e) ==> is_format_error(e, key@),
{
    match required_text(args, key) {
        Ok(t) => match parse_uuid(t.as_str()) {
            Some(id) => Ok(Some(id)),
            None => Err(ToolArgError::InvalidFormat(key.to_string())),
        },
        Err(_) => Ok(None),
    }
}

/// Accepts a member's delegation result.
pub struct AcceptResultTool<R> {
    delegation_repo: R,
}

impl<R> AcceptResultTool<R> {
    pub closed spec fn repo(&self) -> R {
        self.delegation_repo
    }

    pub fn new(delegation_repo: R) -> (t: Self)
        ensures
            t.repo() == delegation_repo,
    {
        AcceptResultTool { delegation_repo }
    }

    pub fn name(&self) -> (s: &'static str)
        ensures
            s@ == "accept_result"@,
    {
        "accept_result"
    }

    pub fn description(&self) -> (s: &'static str)
        ensures
            s@ == "Accept a member's delegation result"@,
    {
        "Accept a member's delegation result"
    }

    /// The delegation to accept.
    pub fn parse(&self, args: &[ToolArg]) -> (r: Result<u128, ToolArgError>)
        ensures
            r is Ok <==> id_arg(args_view(args@), "delegation_id"@) is Some,
            r matches Ok(id) ==> Some(id) == id_arg(args_view(args@), "delegation_id"@),
    {
        required_id(args, "delegation_id")
    }

    /// The result once the delegation's status was set to `ACCEPTED` (or was not found).
    pub fn report(&self, delegation_id: u128, updated: bool) -> (r: ToolResult)
        ensures
            updated ==> r@ == succeeded("Accepted delegation: "@ + uuid_string(delegation_id)),
            !updated ==> r@ == failed("Delegation "@ + uuid_string(delegation_id) + " not found"@),
    {
        let id = uuid_text(delegation_id);
        if updated {
            ok_result(join2("Accepted delegation: ", id.as_str()))
        } else {
            failed_result(join3("Delegation ", id.as_str(), " not found"))
        }
    }
}

/// The status that accepting sets on a delegation.
pub fn accepted_status() -> (s: &'static str)
    ensures
        s@ == "ACCEPTED"@,
{
    "ACCEPTED"
}

/// Rejects a member's delegation result.
pub struct RejectResultTool<R> {
    delegation_repo: R,
}

impl<R> RejectResultTool<R> {
    pub closed spec fn repo(&self) -> R {
        self.delegation_repo
    }

    pub fn new(delegation_repo: R) -> (t: Self)
        ensures
            t.repo() == delegation_repo,
    {
        RejectResultTool { delegation_repo }
    }

    pub fn name(&self) -> (s: &'static str)
        ensures
            s@ == "reject_result"@,
    {
        "reject_result"
    }

    pub fn description(&self) -> (s: &'static str)
        ensures
            s@ == "Reject a member's delegation result, optionally rerouting"@,
    {
        "Reject a member's delegation result, optionally rerouting"
    }

    /// The delegation to reject and the reason.
    pub fn parse<'a>(&self, args: &'a [ToolArg]) -> (r: Result<(u128, &'a String), ToolArgError>)
        ensures
            r is Ok <==> id_arg(args_view(args@), "delegation_id"@) is Some && text_arg(args_view(args@), "reason"@) is Some,
            r matches Ok((id, reason)) ==> Some(id) == id_arg(args_view(args@), "delegation_id"@)
                && Some(reason@) == text_arg(args_view(args@), "reason"@),
    {
        let id = match required_id(args, "delegation_id") {
            Ok(id) => id,
            Err(e) => { return Err(e); },
        };
        let reason = match required_text(args, "reason") {
            Ok(t) => t,
            Err(e) => { return Err(e); },
        };
        Ok((id, reason))
    }

    /// The result once the rejection was recorded (or the delegation was not found):
    /// it names the delegation and the reason.
    pub fn report(&self, delegation_id: u128, reason: &str, updated: bool) -> (r: ToolResult)
        ensures
            updated ==> r@ == succeeded("Rejected delegation "@ + uuid_string(delegation_id) + ": "@ + reason@),
            !updated ==> r@ == failed("Delegation "@ + uuid_string(delegation_id) + " not found"@),
    {
        let id = uuid_text(delegation_id);
        if updated {
            ok_result(join4("Rejected delegation ", id.as_str(), ": ", reason))
        } else {
            failed_result(join3("Delegation ", id.as_str(), " not found"))
        }
    }
}

/// Who can see a published artifact.
#[derive(Debug, Clone, Copy, PartialEq, Eq, Structural)]
pub enum PublishScope {
    Private,
    TeamShared,
    ExternalPublished,
}

pub open spec fn scope_of(s: Seq<char>) -> Option<PublishScope> {
    if s == "private"@ {
        Some(PublishScope::Private)
    } else if s == "team_shared"@ {
        Some(PublishScope::TeamShared)
    } else if s == "external_published"@ {
        Some(PublishScope::ExternalPublished)
    } else {
        None
    }
}

/// Reads a publish scope: `private`, `team_shared` or `external_published`.
pub fn parse_scope(s: &str) -> (r: Option<PublishScope>)
    ensures
        r == scope_of(s@),
{
    if crate::text::text_is(s, "private") {
        Some(PublishScope::Private)
    } else if crate::text::text_is(s, "team_shared") {
        Some(PublishScope::TeamShared)
    } else if crate::text::text_is(s, "external_published") {
        Some(PublishScope::ExternalPublished)
    } else {
        None
    }
}

/// What publishing an artifact needs: the artifact's reference and the UUID it
/// names (if it names one), its summary, the scope text and the scope it names (if
/// it names one).
pub struct PublishRequest {
    pub artifact_ref: String,
    pub artifact_id: Option<u128>,
    pub summary: String,
    pub scope_text: String,
    pub scope: Option<PublishScope>,
}

/// Publishes an artifact to the team's shared state.
pub struct PublishToTeamTool<S> {
    shared_state: S,
    team_instance_id: u128,
}

impl<S> PublishToTeamTool<S> {
    pub closed spec fn state(&self) -> (S, u128) {
        (self.shared_state, self.team_instance_id)
    }

    pub fn new(shared_state: S, team_instance_id: u128) -> (t: Self)
        ensures
            t.state() == (shared_state, team_instance_id),
    {
        PublishToTeamTool { shared_state, team_instance_id }
    }

    pub fn name(&self) -> (s: &'static str)
        ensures
            s@ == "publish_to_team"@,
    {
        "publish_to_team"
    }

    pub fn description(&self) -> (s: &'static str)
        ensures
            s@ == "Publish an artifact to team shared state"@,
    {
        "Publish an artifact to team shared state"
    }

    /// The publish request in the arguments: `artifact_ref`, `summary` and `scope`
    /// are required text.
    pub fn parse(&self, args: &[ToolArg]) -> (r: Result<PublishRequest, ToolArgError>)
        ensures
            r is Ok <==> text_arg(args_view(args@), "artifact_ref"@) is Some && text_arg(args_view(args@), "summary"@) is Some
                && text_arg(args_view(args@), "scope"@) is Some,
            r matches Ok(p) ==> Some(p.artifact_ref@) == text_arg(args_view(args@), "artifact_ref"@)
                && p.artifact_id == parsed_uuid(p.artifact_ref@)
                && Some(p.summary@) == text_arg(args_view(args@), "summary"@)
                && Some(p.scope_text@) == text_arg(args_view(args@), "scope"@)
                && p.scope == scope_of(p.scope_text@),
            r matches Err(e) ==> (text_arg(args_view(args@), "artifact_ref"@) is None ==> is_required_error(e, "artifact_ref"@)),
    {
        let artifact_ref = match required_text(args, "artifact_ref") {
            Ok(t) => t.clone(),
            Err(e) => { return Err(e); },
        };
        let summary = match required_text(args, "summary") {
            Ok(t) => t.clone(),
            Err(e) => { return Err(e); },
        };
        let scope_text = match required_text(args, "scope") {
            Ok(t) => t.clone(),
            Err(e) => { return Err(e); },
        };
        let artifact_id = parse_uuid(artifact_ref.as_str());
        let scope = parse_scope(scope_text.as_str());
        Ok(PublishRequest { artifact_ref, artifact_id, summary, scope_text, scope })
    }

    /// The result: an unknown scope is refused before anything is published;
    /// otherwise whether publishing succeeded.
    pub fn report(&self, p: &PublishRequest, published: bool) -> (r: ToolResult)
        ensures
            p.scope is None ==> r@ == failed("Invalid scope: "@ + p.scope_text@),
            p.scope is Some && published ==> r@ == succeeded(
                "Published artifact "@ + p.artifact_ref@ + " to "@ + p.scope_text@ + " scope: "@ + p.summary@,
            ),
            p.scope is Some && !published ==> r@ == failed("Failed to publish artifact"@),
    {
        if p.scope.is_none() {
            return failed_result(join2("Invalid scope: ", p.scope_text.as_str()));
        }
        if published {
            ok_result(join6("Published artifact ", p.artifact_ref.as_str(), " to ", p.scope_text.as_str(), " scope: ", p.summary.as_str()))
        } else {
            failed_result(String::from_str("Failed to publish artifact"))
        }
    }
}

/// The name under which published artifacts are recorded as published by.
pub fn publisher_name() -> (s: &'static str)
    ensures
        s@ == "supervisor"@,
{
    "supervisor"
}

/// Marks a team task complete.
pub struct CompleteTeamTaskTool<R> {
    task_repo: R,
}

impl<R> CompleteTeamTaskTool<R> {
    pub closed spec fn repo(&self) -> R {
        self.task_repo
    }

    pub fn new(task_repo: R) -> (t: Self)
        ensures
            t.repo() == task_repo,
    {
        CompleteTeamTaskTool { task_repo }
    }

    pub fn name(&self) -> (s: &'static str)
        ensures
            s@ == "complete_team_task"@,
    {
        "complete_team_task"
    }

    pub fn description(&self) -> (s: &'static str)
        ensures
            s@ == "Mark a team task as complete"@,
    {
        "Mark a team task as complete"
    }

    /// The summary (required) and the task to complete (optional).
    pub fn parse<'a>(&self, args: &'a [ToolArg]) -> (r: Result<(Option<u128>, &'a String), ToolArgError>)
        ensures
            r is Ok <==> text_arg(args_view(args@), "summary"@) is Some
                && (text_arg(args_view(args@), "task_id"@) is None || id_arg(args_view(args@), "task_id"@) is Some),
            r matches Ok((id, s)) ==> id == id_arg(args_view(args@), "task_id"@)
                && Some(s@) == text_arg(args_view(args@), "summary"@),
            r matches Err(e) ==> (text_arg(args_view(args@), "summary"@) is None ==> is_required_error(e, "summary"@)),
    {
        let summary = match required_text(args, "summary") {
            Ok(t) => t,
            Err(e) => { return Err(e); },
        };
        let id = match optional_id(args, "task_id") {
            Ok(id) => id,
            Err(e) => { return Err(e); },
        };
        Ok((id, summary))
    }

    /// The result: without a task nothing was looked up and the completion is
    /// reported; with one, once its status was set to completed (and, if it was
    /// found, the task marked completed).
    pub fn report(&self, task_id: Option<u128>, summary: &str, updated: bool) -> (r: ToolResult)
        ensures
            task_id is None ==> r@ == succeeded("Task completed: "@ + summary@),
            task_id matches Some(id) ==> (updated ==> r@ == succeeded("Task "@ + uuid_string(id) + " completed: "@ + summary@)),
            task_id matches Some(id) ==> (!updated ==> r@ == failed("Task "@ + uuid_string(id) + " not found"@)),
    {
        match task_id {
            None => ok_result(join2("Task completed: ", summary)),
            Some(task_id) => {
                let id = uuid_text(task_id);
                if updated {
                    ok_result(join4("Task ", id.as_str(), " completed: ", summary))
                } else {
                    failed_result(join3("Task ", id.as_str(), " not found"))
                }
            },
        }
    }
}

/// Marks a team task failed.
pub struct FailTeamTaskTool<R> {
    task_repo: R,
}

impl<R> FailTeamTaskTool<R> {
    pub closed spec fn repo(&self) -> R {
        self.task_repo
    }

    pub fn new(task_repo: R) -> (t: Self)
        ensures
            t.repo() == task_repo,
    {
        FailTeamTaskTool { task_repo }
    }

    pub fn name(&self) -> (s: &'static str)
        ensures
            s@ == "fail_team_task"@,
    {
        "fail_team_task"
    }

    pub fn description(&self) -> (s: &'static str)
        ensures
            s@ == "Mark a team task as failed"@,
    {
        "Mark a team task as failed"
    }

    /// The reason (required) and the task to fail (optional).
    pub fn parse<'a>(&self, args: &'a [ToolArg]) -> (r: Result<(Option<u128>, &'a String), ToolArgError>)
        ensures
            r is Ok <==> text_arg(args_view(args@), "reason"@) is Some
                && (text_arg(args_view(args@), "task_id"@) is None || id_arg(args_view(args@), "task_id"@) is Some),
            r matches Ok((id, s)) ==> id == id_arg(args_view(args@), "task_id"@)
                && Some(s@) == text_arg(args_view(args@), "reason"@),
            r matches Err(e) ==> (text_arg(args_view(args@), "reason"@) is None ==> is_required_error(e, "reason"@)),
    {
        let reason = match required_text(args, "reason") {
            Ok(t) => t,
            Err(e) => { return Err(e); },
        };
        let id = match optional_id(args, "task_id") {
            Ok(id) => id,
            Err(e) => { return Err(e); },
        };
        Ok((id, reason))
    }

    /// The result: without a task nothing was looked up and the failure is
    /// reported; with one, once its status was set to failed (or it was not found).
    pub fn report(&self, task_id: Option<u128>, reason: &str, updated: bool) -> (r: ToolResult)
        ensures
            task_id is None ==> r@ == succeeded("Task failed: "@ + reason@),
            task_id matches Some(id) ==> (updated ==> r@ == succeeded("Task "@ + uuid_string(id) + " failed: "@ + reason@)),
            task_id matches Some(id) ==> (!updated ==> r@ == failed("Task "@ + uuid_string(id) + " not found"@)),
    {
        match task_id {
            None => ok_result(join2("Task failed: ", reason)),
            Some(task_id) => {
                let id = uuid_text(task_id);
                if updated {
                    ok_result(join4("Task ", id.as_str(), " failed: ", reason))
                } else {
                    failed_result(join3("Task ", id.as_str(), " not found"))
                }
            },
        }
    }
}

/// Reports a delegation's current state.
pub struct GetDelegationStatusTool<R> {
    delegation_repo: R,
}

impl<R> GetDelegationStatusTool<R> {
    pub closed spec fn repo(&self) -> R {
        self.delegation_repo
    }

    pub fn new(delegation_repo: R) -> (t: Self)
        ensures
            t.repo() == delegation_repo,
    {
        GetDelegationStatusTool { delegation_repo }
    }

    pub fn name(&self) -> (s: &'static str)
        ensures
            s@ == "get_delegation_status"@,
    {
        "get_delegation_status"
    }

    pub fn description(&self) -> (s: &'static str)
        ensures
            s@ == "Get the current status of a delegation"@,
    {
        "Get the current status of a delegation"
    }

    /// The delegation to look up.
    pub fn parse(&self, args: &[ToolArg]) -> (r: Result<u128, ToolArgError>)
        ensures
            r is Ok <==> id_arg(args_view(args@), "delegation_id"@) is Some,
            r matches Ok(id) ==> Some(id) == id_arg(args_view(args@), "delegation_id"@),
    {
        required_id(args, "delegation_id")
    }

    /// The result: the delegation's JSON if it was found.
    pub fn report(&self, delegation_id: u128, found_json: Option<String>) -> (r: ToolResult)
        ensures
            found_json matches Some(j) ==> r@ == succeeded(j@),
            found_json is None ==> r@ == failed("Delegation "@ + uuid_string(delegation_id) + " not found"@),
    {
        match found_json {
            Some(j) => ok_result(j),
            None => {
                let id = uuid_text(delegation_id);
                failed_result(join3("Delegation ", id.as_str(), " not found"))
            },
        }
    }
}

/// Reports a team task's details.
pub struct GetTaskDetailsTool<R> {
    task_repo: R,
}

impl<R> GetTaskDetailsTool<R> {
    pub closed spec fn repo(&self) -> R {
        self.task_repo
    }

    pub fn new(task_repo: R) -> (t: Self)
        ensures
            t.repo() == task_repo,
    {
        GetTaskDetailsTool { task_repo }
    }

    pub fn name(&self) -> (s: &'static str)
        ensures
            s@ == "get_task_details"@,
    {
        "get_task_details"
    }

    pub fn description(&self) -> (s: &'static str)
        ensures
            s@ == "Get details of a team task"@,
    {
        "Get details of a team task"
    }

    /// The task to look up.
    pub fn parse(&self, args: &[ToolArg]) -> (r: Result<u128, ToolArgError>)
        ensures
            r is Ok <==> id_arg(args_view(args@), "task_id"@) is Some,
            r matches Ok(id) ==> Some(id) == id_arg(args_view(args@), "task_id"@),
    {
        required_id(args, "task_id")
    }

    /// The result: the task's JSON, under the task's id, if it was found.
    pub fn report(&self, task_id: u128, found_json: Option<String>) -> (r: ToolResult)
        ensures
            found_json matches Some(j) ==> r@ == succeeded("Task details for "@ + uuid_string(task_id) + ": "@ + j@),
            found_json is None ==> r@ == failed("Task "@ + uuid_string(task_id) + " not found"@),
    {
        match found_json {
            Some(j) => {
                let id = uuid_text(task_id);
                ok_result(join4("Task details for ", id.as_str(), ": ", j.as_str()))
            },
            None => {
                let id = uuid_text(task_id);
                failed_result(join3("Task ", id.as_str(), " not found"))
            },
        }
    }
}

/// Asks for team-level approval of a tool.
pub struct RequestApprovalTool;

impl Default for RequestApprovalTool {
    /// The same as `new`.
    fn default() -> (t: Self)
        ensures
            t == RequestApprovalTool,
    {
        RequestApprovalTool::new()
    }
}

impl RequestApprovalTool {
    pub fn new() -> (t: Self) {
        RequestApprovalTool
    }

    pub fn name(&self) -> (s: &'static str)
        ensures
            s@ == "request_approval"@,
    {
        "request_approval"
    }

    pub fn description(&self) -> (s: &'static str)
        ensures
            s@ == "Request team-level approval"@,
    {
        "Request team-level approval"
    }

    /// Records the request: the tool's name and the reason are both required.
    pub fn execute(&self, args: &[ToolArg]) -> (r: Result<ToolResult, ToolArgError>)
        ensures
            r is Ok <==> text_arg(args_view(args@), "tool_name"@) is Some && text_arg(args_view(args@), "reason"@) is Some,
            r matches Ok(res) ==> res@ == succeeded(
                "Requested approval for "@ + text_arg(args_view(args@), "tool_name"@).unwrap() + ": "@
                    + text_arg(args_view(args@), "reason"@).unwrap(),
            ),
    {
        let tool_name = match required_text(args, "tool_name") {
            Ok(t) => t,
            Err(e) => { return Err(e); },
        };
        let reason = match required_text(args, "reason") {
            Ok(t) => t,
            Err(e) => { return Err(e); },
        };
        Ok(ok_result(join4("Requested approval for ", tool_name.as_str(), ": ", reason.as_str())))
    }
}

/// Sets a coordination fact in the team's shared state.
pub struct UpdateSharedFactTool<S> {
    shared_state: S,
    team_instance_id: u128,
}

impl<S> UpdateSharedFactTool<S> {
    pub closed spec fn state(&self) -> (S, u128) {
        (self.shared_state, self.team_instance_id)
    }

    pub fn new(shared_state: S, team_instance_id: u128) -> (t: Self)
        ensures
            t.state() == (shared_state, team_instance_id),
    {
        UpdateSharedFactTool { shared_state, team_instance_id }
    }

    pub fn name(&self) -> (s: &'static str)
        ensures
            s@ == "update_shared_fact"@,
    {
        "update_shared_fact"
    }

    pub fn description(&self) -> (s: &'static str)
        ensures
            s@ == "Update a coordination fact in shared state"@,
    {
        "Update a coordination fact in shared state"
    }

    /// The fact's key (a string) and its value (any JSON value), by the value's rendering.
    pub fn parse<'a>(&self, args: &'a [ToolArg]) -> (r: Result<(&'a String, &'a ArgValue), ToolArgError>)
        ensures
            r is Ok <==> text_arg(args_view(args@), "key"@) is Some && entry_of(args_view(args@), "value"@) is Some,
            r matches Ok((k, v)) ==> Some(k@) == text_arg(args_view(args@), "key"@)
                && entry_of(args_view(args@), "value"@).unwrap().1 == rendering(*v),
    {
        let key = match required_text(args, "key") {
            Ok(t) => t,
            Err(e) => { return Err(e); },
        };
        let value = match find_arg(args, "value") {
            Some(v) => v,
            None => { return Err(ToolArgError::Required("value".to_string())); },
        };
        Ok((key, value))
    }

    /// The result once the fact was published (or publishing failed).
    pub fn report(&self, key: &str, value_json: &str, published: bool) -> (r: ToolResult)
        ensures
            published ==> r@ == succeeded("Updated shared fact: "@ + key@ + " = "@ + value_json@),
            !published ==> r@ == failed("Failed to update shared fact"@),
    {
        if published {
            ok_result(join4("Updated shared fact: ", key, " = ", value_json))
        } else {
            failed_result(String::from_str("Failed to update shared fact"))
        }
    }
}

/// How a JSON value renders.
pub open spec fn rendering(v: ArgValue) -> Seq<char> {
    match v {
        ArgValue::Text(t) => t@,
        ArgValue::Other(j) => j@,
    }
}

/// Adds a blocker to the team's shared state.
pub struct AddBlockerTool<S> {
    shared_state: S,
    team_instance_id: u128,
}

impl<S> AddBlockerTool<S> {
    pub closed spec fn state(&self) -> (S, u128) {
        (self.shared_state, self.team_instance_id)
    }

    pub fn new(shared_state: S, team_instance_id: u128) -> (t: Self)
        ensures
            t.state() == (shared_state, team_instance_id),
    {
        AddBlockerTool { shared_state, team_instance_id }
    }

    pub fn name(&self) -> (s: &'static str)
        ensures
            s@ == "add_blocker"@,
    {
        "add_blocker"
    }

    pub fn description(&self) -> (s: &'static str)
        ensures
            s@ == "Add a blocker to shared state"@,
    {
        "Add a blocker to shared state"
    }

    /// The blocker's description (required) and source (`supervisor` when absent).
    pub fn parse(&self, args: &[ToolArg]) -> (r: Result<(String, String), ToolArgError>)
        ensures
            r is Ok <==> text_arg(args_view(args@), "description"@) is Some,
            r matches Ok((d, s)) ==> Some(d@) == text_arg(args_view(args@), "description"@)
                && s@ == match text_arg(args_view(args@), "source"@) {
                    Some(t) => t,
                    None => "supervisor"@,
                },
    {
        let description = match required_text(args, "description") {
            Ok(t) => t.clone(),
            Err(e) => { return Err(e); },
        };
        let source = match required_text(args, "source") {
            Ok(t) => t.clone(),
            Err(_) => String::from_str("supervisor"),
        };
        Ok((description, source))
    }

    /// The result once the blocker was added (or adding failed).
    pub fn report(&self, description: &str, source: &str, added: bool) -> (r: ToolResult)
        ensures
            added ==> r@ == succeeded("Added blocker: "@ + description@ + " (source: "@ + source@ + ")"@),
            !added ==> r@ == failed("Failed to add blocker"@),
    {
        if added {
            let s = join4("Added blocker: ", description, " (source: ", source);
            ok_result(join2(s.as_str(), ")"))
        } else {
            failed_result(String::from_str("Failed to add blocker"))
        }
    }
}

/// Resolves a blocker in the team's shared state.
pub struct ResolveBlockerTool<S> {
    shared_state: S,
    team_instance_id: u128,
}

impl<S> ResolveBlockerTool<S> {
    pub closed spec fn state(&self) -> (S, u128) {
        (self.shared_state, self.team_instance_id)
    }

    pub fn new(shared_state: S, team_instance_id: u128) -> (t: Self)
        ensures
            t.state() == (shared_state, team_instance_id),
    {
        ResolveBlockerTool { shared_state, team_instance_id }
    }

    pub fn name(&self) -> (s: &'static str)
        ensures
            s@ == "resolve_blocker"@,
    {
        "resolve_blocker"
    }

    pub fn description(&self) -> (s: &'static str)
        ensures
            s@ == "Resolve a blocker in shared state"@,
    {
        "Resolve a blocker in shared state"
    }

    /// The blocker to resolve.
    pub fn parse(&self, args: &[ToolArg]) -> (r: Result<u128, ToolArgError>)
        ensures
            r is Ok <==> id_arg(args_view(args@), "blocker_id"@) is Some,
            r matches Ok(id) ==> Some(id) == id_arg(args_view(args@), "blocker_id"@),
    {
        required_id(args, "blocker_id")
    }

    /// The result once the blocker was resolved (or resolving failed).
    pub fn report(&self, blocker_id: u128, resolved: bool) -> (r: ToolResult)
        ensures
            resolved ==> r@ == succeeded("Resolved blocker: "@ + uuid_string(blocker_id)),
            !resolved ==> r@ == failed("Failed to resolve blocker"@),
    {
        if resolved {
            let id = uuid_text(blocker_id);
            ok_result(join2("Resolved blocker: ", id.as_str()))
        } else {
            failed_result(String::from_str("Failed to resolve blocker"))
        }
    }
}

/// Delegates a task to the first member that a selector resolves to.
pub struct DelegateTaskTool<R, S> {
    delegation_repo: R,
    selector_resolver: S,
    team_instance_id: u128,
}

impl<R, S> DelegateTaskTool<R, S> {
    pub closed spec fn state(&self) -> (R, S, u128) {
        (self.delegation_repo, self.selector_resolver, self.team_instance_id)
    }

    pub fn new(delegation_repo: R, selector_resolver: S, team_instance_id: u128) -> (t: Self)
        ensures
            t.state() == (delegation_repo, selector_resolver, team_instance_id),
    {
        DelegateTaskTool { delegation_repo, selector_resolver, team_instance_id }
    }

    pub fn name(&self) -> (s: &'static str)
        ensures
            s@ == "delegate_task"@,
    {
        "delegate_task"
    }

    pub fn description(&self) -> (s: &'static str)
        ensures
            s@ == "Delegate a task to a team member"@,
    {
        "Delegate a task to a team member"
    }

    /// The goal and the optional instructions; the member selector must be present
    /// (it is read by the caller).
    pub fn parse<'a>(&self, args: &'a [ToolArg]) -> (r: Result<(&'a String, Option<&'a String>), ToolArgError>)
        ensures
            r is Ok <==> entry_of(args_view(args@), "member_selector"@) is Some && text_arg(args_view(args@), "goal"@) is Some,
            r matches Ok((g, i)) ==> Some(g@) == text_arg(args_view(args@), "goal"@)
                && (match i { Some(t) => Some(t@), None => None }) == text_arg(args_view(args@), "instructions"@),
    {
        if !has_arg(args, "member_selector") {
            return Err(ToolArgError::Required("member_selector".to_string()));
        }
        let goal = match required_text(args, "goal") {
            Ok(t) => t,
            Err(e) => { return Err(e); },
        };
        let instructions = match required_text(args, "instructions") {
            Ok(t) => Some(t),
            Err(_) => None,
        };
        Ok((goal, instructions))
    }

    /// The member that gets the task: the first candidate, if any.
    pub fn choose_member(&self, candidate_instance_ids: &[u128]) -> (r: Option<u128>)
        ensures
            candidate_instance_ids@.len() == 0 ==> r is None,
            candidate_instance_ids@.len() > 0 ==> r == Some(candidate_instance_ids@[0]),
    {
        if candidate_instance_ids.len() == 0 {
            None
        } else {
            Some(candidate_instance_ids[0])
        }
    }

    /// The result when no member matched the selector.
    pub fn no_member(&self) -> (r: ToolResult)
        ensures
            r@ == failed("No matching team members found for selector"@),
    {
        failed_result(String::from_str("No matching team members found for selector"))
    }

    /// The result once the delegation was created.
    pub fn report(&self, task_id: u128, goal: &str, delegation_id: u128) -> (r: ToolResult)
        ensures
            r@ == succeeded(
                "Delegated task to member with goal: "@ + goal@ + ". Task ID: "@ + uuid_string(task_id) + ". Delegation ID: "@
                    + uuid_string(delegation_id),
            ),
    {
        let t = uuid_text(task_id);
        let d = uuid_text(delegation_id);
        ok_result(join6("Delegated task to member with goal: ", goal, ". Task ID: ", t.as_str(), ". Delegation ID: ", d.as_str()))
    }
}

/// The names of the supervisor's tools, in the order they are registered.
pub open spec fn supervisor_tool_names() -> Seq<Seq<char>> {
    seq![
        "delegate_task"@,
        "accept_result"@,
        "reject_result"@,
        "publish_to_team"@,
        "get_shared_state"@,
        "complete_team_task"@,
        "list_team_members"@,
        "get_delegation_status"@,
        "update_shared_fact"@,
        "add_blocker"@,
        "resolve_blocker"@,
        "fail_team_task"@,
        "request_approval"@,
        "get_task_details"@,
    ]
}

/// Reports the team's shared task state.
pub struct GetSharedStateTool<S> {
    shared_state: S,
    team_instance_id: u128,
}

impl<S> GetSharedStateTool<S> {
    pub closed spec fn state(&self) -> (S, u128) {
        (self.shared_state, self.team_instance_id)
    }

    pub fn new(shared_state: S, team_instance_id: u128) -> (t: Self)
        ensures
            t.state() == (shared_state, team_instance_id),
    {
        GetSharedStateTool { shared_state, team_instance_id }
    }

    pub fn name(&self) -> (s: &'static str)
        ensures
            s@ == "get_shared_state"@,
    {
        "get_shared_state"
    }

    pub fn description(&self) -> (s: &'static str)
        ensures
            s@ == "Get the current team shared task state"@,
    {
        "Get the current team shared task state"
    }

    /// The result: the shared state's JSON.
    pub fn report(&self, state_json: String) -> (r: ToolResult)
        ensures
            r@ == succeeded(state_json@),
    {
        ok_result(state_json)
    }
}

/// Lists the team's members.
pub struct ListTeamMembersTool<R> {
    team_member_repo: R,
    team_instance_id: u128,
}

impl<R> ListTeamMembersTool<R> {
    pub closed spec fn state(&self) -> (R, u128) {
        (self.team_member_repo, self.team_instance_id)
    }

    pub fn new(team_member_repo: R, team_instance_id: u128) -> (t: Self)
        ensures
            t.state() == (team_member_repo, team_instance_id),
    {
        ListTeamMembersTool { team_member_repo, team_instance_id }
    }

    pub fn name(&self) -> (s: &'static str)
        ensures
            s@ == "list_team_members"@,
    {
        "list_team_members"
    }

    pub fn description(&self) -> (s: &'static str)
        ensures
            s@ == "List available team members"@,
    {
        "List available team members"
    }

    /// The result: the members' JSON.
    pub fn report(&self, members_json: String) -> (r: ToolResult)
        ensures
            r@ == succeeded(members_json@),
    {
        ok_result(members_json)
    }
}

/// What the supervisor's tools are built from.
pub struct SupervisorToolsConfig<R, SR, SS> {
    pub delegation_repo: R,
    pub selector_resolver: SR,
    pub shared_state: SS,
    pub team_member_repo: R,
    pub team_task_repo: R,
    pub team_instance_id: u128,
}

/// The supervisor's fourteen tools.
pub struct SupervisorToolset<R, SR, SS> {
    pub delegate_task: DelegateTaskTool<R, SR>,
    pub accept_result: AcceptResultTool<R>,
    pub reject_result: RejectResultTool<R>,
    pub publish_to_team: PublishToTeamTool<SS>,
    pub get_shared_state: GetSharedStateTool<SS>,
    pub complete_team_task: CompleteTeamTaskTool<R>,
    pub list_team_members: ListTeamMembersTool<R>,
    pub get_delegation_status: GetDelegationStatusTool<R>,
    pub update_shared_fact: UpdateSharedFactTool<SS>,
    pub add_blocker: AddBlockerTool<SS>,
    pub resolve_blocker: ResolveBlockerTool<SS>,
    pub fail_team_task: FailTeamTaskTool<R>,
    pub request_approval: RequestApprovalTool,
    pub get_task_details: GetTaskDetailsTool<R>,
}

/// Builds the supervisor's tools, each over its share of the configuration.
pub fn create_supervisor_tools<R: Clone, SR: Clone, SS: Clone>(config: SupervisorToolsConfig<R, SR, SS>) -> (t: SupervisorToolset<R, SR, SS>)
    ensures
        t.delegate_task.state().2 == config.team_instance_id,
        t.publish_to_team.state().1 == config.team_instance_id,
        t.get_shared_state.state().1 == config.team_instance_id,
        t.list_team_members.state().1 == config.team_instance_id,
        t.update_shared_fact.state().1 == config.team_instance_id,
        t.add_blocker.state().1 == config.team_instance_id,
        t.resolve_blocker.state().1 == config.team_instance_id,
{
    let id = config.team_instance_id;
    SupervisorToolset {
        delegate_task: DelegateTaskTool::new(config.delegation_repo.clone(), config.selector_resolver.clone(), id),
        accept_result: AcceptResultTool::new(config.delegation_repo.clone()),
        reject_result: RejectResultTool::new(config.delegation_repo.clone()),
        publish_to_team: PublishToTeamTool::new(config.shared_state.clone(), id),
        get_shared_state: GetSharedStateTool::new(config.shared_state.clone(), id),
        complete_team_task: CompleteTeamTaskTool::new(config.team_task_repo.clone()),
        list_team_members: ListTeamMembersTool::new(config.team_member_repo.clone(), id),
        get_delegation_status: GetDelegationStatusTool::new(config.delegation_repo.clone()),
        update_shared_fact: UpdateSharedFactTool::new(config.shared_state.clone(), id),
        add_blocker: AddBlockerTool::new(config.shared_state.clone(), id),
        resolve_blocker: ResolveBlockerTool::new(config.shared_state.clone(), id),
        fail_team_task: FailTeamTaskTool::new(config.team_task_repo.clone()),
        request_approval: RequestApprovalTool::new(),
        get_task_details: GetTaskDetailsTool::new(config.team_task_repo),
    }
}

impl<R, SR, SS> SupervisorToolset<R, SR, SS> {
    /// The tools' names, in the order they are registered.
    pub fn names(&self) -> (v: Vec<&'static str>)
        ensures
            v@.map_values(|s: &str| s@) == supervisor_tool_names(),
    {
        let mut v: Vec<&'static str> = Vec::new();
        v.push(self.delegate_task.name());
        v.push(self.accept_result.name());
        v.push(self.reject_result.name());
        v.push(self.publish_to_team.name());
        v.push(self.get_shared_state.name());
        v.push(self.complete_team_task.name());
        v.push(self.list_team_members.name());
        v.push(self.get_delegation_status.name());
        v.push(self.update_shared_fact.name());
        v.push(self.add_blocker.name());
        v.push(self.resolve_blocker.name());
        v.push(self.fail_team_task.name());
        v.push(self.request_approval.name());
        v.push(self.get_task_details.name());
        assert(v@.map_values(|s: &str| s@) =~= supervisor_tool_names());
        v
    }
}

/// The supervisor's fourteen tools have fourteen different names, so registering
/// them all keeps every one.
pub proof fn lemma_supervisor_tool_names_distinct()
    ensures
        supervisor_tool_names().len() == 14,
        supervisor_tool_names().no_duplicates(),
{
    reveal_strlit("delegate_task");
    reveal_strlit("accept_result");
    reveal_strlit("reject_result");
    reveal_strlit("publish_to_team");
    reveal_strlit("get_shared_state");
    reveal_strlit("complete_team_task");
    reveal_strlit("list_team_members");
    reveal_strlit("get_delegation_status");
    reveal_strlit("update_shared_fact");
    reveal_strlit("add_blocker");
    reveal_strlit("resolve_blocker");
    reveal_strlit("fail_team_task");
    reveal_strlit("request_approval");
    reveal_strlit("get_task_details");
    let n = supervisor_tool_names();
    assert forall|a: int, b: int| 0 <= a < b < n.len() implies n[a] != n[b] by {
        assert(n[a].len() != n[b].len() || n[a][0] != n[b][0] || n[a][1] != n[b][1] || n[a][4] != n[b][4]);
    }
}

/// One parameter of a tool: its name, JSON type and description, and the values it
/// is limited to (none when any value of its type will do). An array's items are strings.
pub struct ParamSpec {
    pub name: &'static str,
    pub kind: &'static str,
    pub description: &'static str,
    pub allowed: Vec<&'static str>,
}

/// A tool's parameters, as the language model is shown them, and which are required.
pub struct ToolSchema {
    pub properties: Vec<ParamSpec>,
    pub required: Vec<&'static str>,
}

pub open spec fn param_view(p: ParamSpec) -> (Seq<char>, Seq<char>, Seq<char>, Seq<Seq<char>>) {
    (p.name@, p.kind@, p.description@, p.allowed@.map_values(|a: &str| a@))
}

pub open spec fn schema_view(s: ToolSchema) -> (Seq<(Seq<char>, Seq<char>, Seq<char>, Seq<Seq<char>>)>, Seq<Seq<char>>) {
    (s.properties@.map_values(|p: ParamSpec| param_view(p)), s.required@.map_values(|r: &str| r@))
}

fn param(name: &'static str, kind: &'static str, description: &'static str) -> (p: ParamSpec)
    ensures
        param_view(p) == (name@, kind@, description@, Seq::<Seq<char>>::empty()),
{
    let p = ParamSpec { name, kind, description, allowed: Vec::new() };
    assert(p.allowed@.map_values(|a: &str| a@) =~= Seq::<Seq<char>>::empty());
    p
}

impl<R, S> DelegateTaskTool<R, S> {
    /// The tool's parameters.
    pub fn parameters_schema(&self) -> (s: ToolSchema)
        ensures
            schema_view(s) == (seq![("member_selector"@, "object"@, "Selector to identify the team member"@, Seq::<Seq<char>>::empty()), ("goal"@, "string"@, "Goal for the delegated task"@, Seq::<Seq<char>>::empty()), ("instructions"@, "string"@, "Detailed instructions for the task"@, Seq::<Seq<char>>::empty()), ("return_contract"@, "object"@, "Contract for expected return value"@, Seq::<Seq<char>>::empty())], seq!["member_selector"@, "goal"@]),
    {
        let mut properties: Vec<ParamSpec> = Vec::new();
        properties.push(param("member_selector", "object", "Selector to identify the team member"));
        properties.push(param("goal", "string", "Goal for the delegated task"));
        properties.push(param("instructions", "string", "Detailed instructions for the task"));
        properties.push(param("return_contract", "object", "Contract for expected return value"));
        let mut required: Vec<&'static str> = Vec::new();
        required.push("member_selector");
        required.push("goal");
        let s = ToolSchema { properties, required };
        assert(schema_view(s).0 =~= seq![("member_selector"@, "object"@, "Selector to identify the team member"@, Seq::<Seq<char>>::empty()), ("goal"@, "string"@, "Goal for the delegated task"@, Seq::<Seq<char>>::empty()), ("instructions"@, "string"@, "Detailed instructions for the task"@, Seq::<Seq<char>>::empty()), ("return_contract"@, "object"@, "Contract for expected return value"@, Seq::<Seq<char>>::empty())]);
        assert(schema_view(s).1 =~= seq!["member_selector"@, "goal"@]);
        s
    }
}

impl<R> AcceptResultTool<R> {
    /// The tool's parameters.
    pub fn parameters_schema(&self) -> (s: ToolSchema)
        ensures
            schema_view(s) == (seq![("delegation_id"@, "string"@, "The delegation ID to accept"@, Seq::<Seq<char>>::empty())], seq!["delegation_id"@]),
    {
        let mut properties: Vec<ParamSpec> = Vec::new();
        properties.push(param("delegation_id", "string", "The delegation ID to accept"));
        let mut required: Vec<&'static str> = Vec::new();
        required.push("delegation_id");
        let s = ToolSchema { properties, required };
        assert(schema_view(s).0 =~= seq![("delegation_id"@, "string"@, "The delegation ID to accept"@, Seq::<Seq<char>>::empty())]);
        assert(schema_view(s).1 =~= seq!["delegation_id"@]);
        s
    }
}

impl<R> RejectResultTool<R> {
    /// The tool's parameters.
    pub fn parameters_schema(&self) -> (s: ToolSchema)
        ensures
            schema_view(s) == (seq![("delegation_id"@, "string"@, "The delegation ID to reject"@, Seq::<Seq<char>>::empty()), ("reason"@, "string"@, "Reason for rejection"@, Seq::<Seq<char>>::empty()), ("reroute"@, "boolean"@, "Whether to reroute to another member"@, Seq::<Seq<char>>::empty())], seq!["delegation_id"@, "reason"@]),
    {
        let mut properties: Vec<ParamSpec> = Vec::new();
        properties.push(param("delegation_id", "string", "The delegation ID to reject"));
        properties.push(param("reason", "string", "Reason for rejection"));
        properties.push(param("reroute", "boolean", "Whether to reroute to another member"));
        let mut required: Vec<&'static str> = Vec::new();
        required.push("delegation_id");
        required.push("reason");
        let s = ToolSchema { properties, required };
        assert(schema_view(s).0 =~= seq![("delegation_id"@, "string"@, "The delegation ID to reject"@, Seq::<Seq<char>>::empty()), ("reason"@, "string"@, "Reason for rejection"@, Seq::<Seq<char>>::empty()), ("reroute"@, "boolean"@, "Whether to reroute to another member"@, Seq::<Seq<char>>::empty())]);
        assert(schema_view(s).1 =~= seq!["delegation_id"@, "reason"@]);
        s
    }
}

impl<S> PublishToTeamTool<S> {
    /// The tool's parameters.
    pub fn parameters_schema(&self) -> (s: ToolSchema)
        ensures
            schema_view(s) == (seq![("artifact_ref"@, "string"@, "The artifact reference to publish"@, Seq::<Seq<char>>::empty()), ("summary"@, "string"@, "Summary of the artifact"@, Seq::<Seq<char>>::empty()), ("scope"@, "string"@, "Visibility scope"@, seq!["private"@, "team_shared"@, "external_published"@])], seq!["artifact_ref"@, "summary"@, "scope"@]),
    {
        let mut properties: Vec<ParamSpec> = Vec::new();
        properties.push(param("artifact_ref", "string", "The artifact reference to publish"));
        properties.push(param("summary", "string", "Summary of the artifact"));
        let mut allowed: Vec<&'static str> = Vec::new();
        allowed.push("private");
        allowed.push("team_shared");
        allowed.push("external_published");
        let scope = ParamSpec { name: "scope", kind: "string", description: "Visibility scope", allowed };
        assert(scope.allowed@.map_values(|a: &str| a@) =~= seq!["private"@, "team_shared"@, "external_published"@]);
        properties.push(scope);
        let mut required: Vec<&'static str> = Vec::new();
        required.push("artifact_ref");
        required.push("summary");
        required.push("scope");
        let s = ToolSchema { properties, required };
        assert(schema_view(s).0 =~= seq![("artifact_ref"@, "string"@, "The artifact reference to publish"@, Seq::<Seq<char>>::empty()), ("summary"@, "string"@, "Summary of the artifact"@, Seq::<Seq<char>>::empty()), ("scope"@, "string"@, "Visibility scope"@, seq!["private"@, "team_shared"@, "external_published"@])]);
        assert(schema_view(s).1 =~= seq!["artifact_ref"@, "summary"@, "scope"@]);
        s
    }
}

impl<S> GetSharedStateTool<S> {
    /// The tool's parameters.
    pub fn parameters_schema(&self) -> (s: ToolSchema)
        ensures
            schema_view(s) == (Seq::<(Seq<char>, Seq<char>, Seq<char>, Seq<Seq<char>>)>::empty(), Seq::<Seq<char>>::empty()),
    {
        let mut properties: Vec<ParamSpec> = Vec::new();
        let mut required: Vec<&'static str> = Vec::new();
        let s = ToolSchema { properties, required };
        assert(schema_view(s).0 =~= Seq::<(Seq<char>, Seq<char>, Seq<char>, Seq<Seq<char>>)>::empty());
        assert(schema_view(s).1 =~= Seq::<Seq<char>>::empty());
        s
    }
}

impl<R> CompleteTeamTaskTool<R> {
    /// The tool's parameters.
    pub fn parameters_schema(&self) -> (s: ToolSchema)
        ensures
            schema_view(s) == (seq![("task_id"@, "string"@, "The task ID to complete"@, Seq::<Seq<char>>::empty()), ("summary"@, "string"@, "Summary of the completed task"@, Seq::<Seq<char>>::empty()), ("output_artifacts"@, "array"@, "List of output artifact references"@, Seq::<Seq<char>>::empty())], seq!["summary"@]),
    {
        let mut properties: Vec<ParamSpec> = Vec::new();
        properties.push(param("task_id", "string", "The task ID to complete"));
        properties.push(param("summary", "string", "Summary of the completed task"));
        properties.push(param("output_artifacts", "array", "List of output artifact references"));
        let mut required: Vec<&'static str> = Vec::new();
        required.push("summary");
        let s = ToolSchema { properties, required };
        assert(schema_view(s).0 =~= seq![("task_id"@, "string"@, "The task ID to complete"@, Seq::<Seq<char>>::empty()), ("summary"@, "string"@, "Summary of the completed task"@, Seq::<Seq<char>>::empty()), ("output_artifacts"@, "array"@, "List of output artifact references"@, Seq::<Seq<char>>::empty())]);
        assert(schema_view(s).1 =~= seq!["summary"@]);
        s
    }
}

impl<R> ListTeamMembersTool<R> {
    /// The tool's parameters.
    pub fn parameters_schema(&self) -> (s: ToolSchema)
        ensures
            schema_view(s) == (Seq::<(Seq<char>, Seq<char>, Seq<char>, Seq<Seq<char>>)>::empty(), Seq::<Seq<char>>::empty()),
    {
        let mut properties: Vec<ParamSpec> = Vec::new();
        let mut required: Vec<&'static str> = Vec::new();
        let s = ToolSchema { properties, required };
        assert(schema_view(s).0 =~= Seq::<(Seq<char>, Seq<char>, Seq<char>, Seq<Seq<char>>)>::empty());
        assert(schema_view(s).1 =~= Seq::<Seq<char>>::empty());
        s
    }
}

impl<R> GetDelegationStatusTool<R> {
    /// The tool's parameters.
    pub fn parameters_schema(&self) -> (s: ToolSchema)
        ensures
            schema_view(s) == (seq![("delegation_id"@, "string"@, "The delegation ID to check"@, Seq::<Seq<char>>::empty())], seq!["delegation_id"@]),
    {
        let mut properties: Vec<ParamSpec> = Vec::new();
        properties.push(param("delegation_id", "string", "The delegation ID to check"));
        let mut required: Vec<&'static str> = Vec::new();
        required.push("delegation_id");
        let s = ToolSchema { properties, required };
        assert(schema_view(s).0 =~= seq![("delegation_id"@, "string"@, "The delegation ID to check"@, Seq::<Seq<char>>::empty())]);
        assert(schema_view(s).1 =~= seq!["delegation_id"@]);
        s
    }
}

impl<S> UpdateSharedFactTool<S> {
    /// The tool's parameters.
    pub fn parameters_schema(&self) -> (s: ToolSchema)
        ensures
            schema_view(s) == (seq![("key"@, "string"@, "The fact key to update"@, Seq::<Seq<char>>::empty()), ("value"@, "string"@, "The fact value"@, Seq::<Seq<char>>::empty())], seq!["key"@, "value"@]),
    {
        let mut properties: Vec<ParamSpec> = Vec::new();
        properties.push(param("key", "string", "The fact key to update"));
        properties.push(param("value", "string", "The fact value"));
        let mut required: Vec<&'static str> = Vec::new();
        required.push("key");
        required.push("value");
        let s = ToolSchema { properties, required };
        assert(schema_view(s).0 =~= seq![("key"@, "string"@, "The fact key to update"@, Seq::<Seq<char>>::empty()), ("value"@, "string"@, "The fact value"@, Seq::<Seq<char>>::empty())]);
        assert(schema_view(s).1 =~= seq!["key"@, "value"@]);
        s
    }
}

impl<S> AddBlockerTool<S> {
    /// The tool's parameters.
    pub fn parameters_schema(&self) -> (s: ToolSchema)
        ensures
            schema_view(s) == (seq![("description"@, "string"@, "Description of the blocker"@, Seq::<Seq<char>>::empty()), ("source"@, "string"@, "Source of the blocker"@, Seq::<Seq<char>>::empty())], seq!["description"@]),
    {
        let mut properties: Vec<ParamSpec> = Vec::new();
        properties.push(param("description", "string", "Description of the blocker"));
        properties.push(param("source", "string", "Source of the blocker"));
        let mut required: Vec<&'static str> = Vec::new();
        required.push("description");
        let s = ToolSchema { properties, required };
        assert(schema_view(s).0 =~= seq![("description"@, "string"@, "Description of the blocker"@, Seq::<Seq<char>>::empty()), ("source"@, "string"@, "Source of the blocker"@, Seq::<Seq<char>>::empty())]);
        assert(schema_view(s).1 =~= seq!["description"@]);
        s
    }
}

impl<S> ResolveBlockerTool<S> {
    /// The tool's parameters.
    pub fn parameters_schema(&self) -> (s: ToolSchema)
        ensures
            schema_view(s) == (seq![("blocker_id"@, "string"@, "The blocker ID to resolve"@, Seq::<Seq<char>>::empty())], seq!["blocker_id"@]),
    {
        let mut properties: Vec<ParamSpec> = Vec::new();
        properties.push(param("blocker_id", "string", "The blocker ID to resolve"));
        let mut required: Vec<&'static str> = Vec::new();
        required.push("blocker_id");
        let s = ToolSchema { properties, required };
        assert(schema_view(s).0 =~= seq![("blocker_id"@, "string"@, "The blocker ID to resolve"@, Seq::<Seq<char>>::empty())]);
        assert(schema_view(s).1 =~= seq!["blocker_id"@]);
        s
    }
}

impl<R> FailTeamTaskTool<R> {
    /// The tool's parameters.
    pub fn parameters_schema(&self) -> (s: ToolSchema)
        ensures
            schema_view(s) == (seq![("task_id"@, "string"@, "The task ID to fail"@, Seq::<Seq<char>>::empty()), ("reason"@, "string"@, "Reason for failure"@, Seq::<Seq<char>>::empty())], seq!["reason"@]),
    {
        let mut properties: Vec<ParamSpec> = Vec::new();
        properties.push(param("task_id", "string", "The task ID to fail"));
        properties.push(param("reason", "string", "Reason for failure"));
        let mut required: Vec<&'static str> = Vec::new();
        required.push("reason");
        let s = ToolSchema { properties, required };
        assert(schema_view(s).0 =~= seq![("task_id"@, "string"@, "The task ID to fail"@, Seq::<Seq<char>>::empty()), ("reason"@, "string"@, "Reason for failure"@, Seq::<Seq<char>>::empty())]);
        assert(schema_view(s).1 =~= seq!["reason"@]);
        s
    }
}

impl RequestApprovalTool {
    /// The tool's parameters.
    pub fn parameters_schema(&self) -> (s: ToolSchema)
        ensures
            schema_view(s) == (seq![("tool_name"@, "string"@, "Name of the tool requiring approval"@, Seq::<Seq<char>>::empty()), ("reason"@, "string"@, "Reason for the approval request"@, Seq::<Seq<char>>::empty())], seq!["tool_name"@, "reason"@]),
    {
        let mut properties: Vec<ParamSpec> = Vec::new();
        properties.push(param("tool_name", "string", "Name of the tool requiring approval"));
        properties.push(param("reason", "string", "Reason for the approval request"));
        let mut required: Vec<&'static str> = Vec::new();
        required.push("tool_name");
        required.push("reason");
        let s = ToolSchema { properties, required };
        assert(schema_view(s).0 =~= seq![("tool_name"@, "string"@, "Name of the tool requiring approval"@, Seq::<Seq<char>>::empty()), ("reason"@, "string"@, "Reason for the approval request"@, Seq::<Seq<char>>::empty())]);
        assert(schema_view(s).1 =~= seq!["tool_name"@, "reason"@]);
        s
    }
}

impl<R> GetTaskDetailsTool<R> {
    /// The tool's parameters.
    pub fn parameters_schema(&self) -> (s: ToolSchema)
        ensures
            schema_view(s) == (seq![("task_id"@, "string"@, "The task ID to get details for"@, Seq::<Seq<char>>::empty())], seq!["task_id"@]),
    {
        let mut properties: Vec<ParamSpec> = Vec::new();
        properties.push(param("task_id", "string", "The task ID to get details for"));
        let mut required: Vec<&'static str> = Vec::new();
        required.push("task_id");
        let s = ToolSchema { properties, required };
        assert(schema_view(s).0 =~= seq![("task_id"@, "string"@, "The task ID to get details for"@, Seq::<Seq<char>>::empty())]);
        assert(schema_view(s).1 =~= seq!["task_id"@]);
        s
    }
}

} // verus!
