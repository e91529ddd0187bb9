//! Recovery planning: what state a checkpoint records, what to do about it, and
//! how a team and its tasks are recovered.

use vstd::prelude::*;
use crate::event_replay::{default_registrations, EventReplayRegistry, ReplayHandler};
use crate::ids::{parse_uuid, parsed_uuid, uuid_string, uuid_text};
use crate::text::{
    append_chars, decimal, spec_decimal, chars_equal, ascii_upper, chars_of, contains, is_uppercase, is_uppercase_char, spec_contains, string_of,
    text_is, to_ascii_uppercase,
};

verus! {

/// The lifecycle states of an agent instance.
#[derive(Debug, Clone, Copy, PartialEq, Eq, Structural)]
pub enum AgentInstanceStatus {
    Created,
    Ready,
    Running,
    Suspended,
    WaitingSubagent,
    WaitingApproval,
    WaitingTool,
    Completed,
    Failed,
    Cancelled,
}

/// What a checkpoint's recorded state says about the instance.
#[derive(Debug, Clone, Copy, PartialEq, Eq, Structural)]
pub enum RecoveryDisposition {
    ResumeCurrent,
    AwaitingApproval,
    AwaitingTool,
    AwaitingDelegation,
    Suspended,
    Completed,
    Failed,
}

/// What recovery should do next.
#[derive(Debug, Clone, Copy, PartialEq, Eq, Structural)]
pub enum RecoveryAction {
    ReplayTailEvents,
    ResumeExecution,
    AwaitApprovalDecision,
    AwaitToolCompletion,
    AwaitDelegationCompletion,
    StaySuspended,
    AcceptCompletedState,
    EscalateFailure,
}

/// One character of a status name, in upper snake case: an uppercase letter other
/// than the first gets an underscore before it, and ASCII letters are capitalised.
pub open spec fn status_piece(s: Seq<char>, i: int) -> Seq<char> {
    (if i > 0 && is_uppercase_char(s[i]) { seq!['_'] } else { seq![] }) + seq![ascii_upper(s[i])]
}

/// The first `n` characters of `s` in upper snake case.
pub open spec fn snake_prefix(s: Seq<char>, n: nat) -> Seq<char>
    decreases n,
{
    if n == 0 || n > s.len() { seq![] } else { snake_prefix(s, (n - 1) as nat) + status_piece(s, n - 1) }
}

/// A status name in the upper snake case that checkpoints use: a name that already
/// holds an underscore is kept as it is; `WaitingApproval` becomes `WAITING_APPROVAL`.
pub open spec fn spec_normalize_status(s: Seq<char>) -> Seq<char> {
    if spec_contains(s, seq!['_']) { s } else { snake_prefix(s, s.len()) }
}

pub fn normalize_status(s: &str) -> (out: String)
    ensures
        out@ == spec_normalize_status(s@),
{
    let chars = chars_of(s);
    let underscore: [char; 1] = ['_'];
    proof { assert(underscore@ =~= seq!['_']); }
    if contains(chars.as_slice(), underscore.as_slice()) {
        return String::from_str(s);
    }
    let mut out: Vec<char> = Vec::new();
    let mut i: usize = 0;
    while i < chars.len()
        invariant
            i <= chars@.len(),
            chars@ == s@,
            out@ == snake_prefix(s@, i as nat),
        decreases chars@.len() - i,
    {
        let c = chars[i];
        if i > 0 && is_uppercase(c) {
            out.push('_');
        }
        out.push(to_ascii_uppercase(c));
        assert(out@ =~= snake_prefix(s@, (i + 1) as nat));
        i = i + 1;
    }
    string_of(out.as_slice())
}

/// The disposition that a normalised recorded state gives.
pub open spec fn disposition_of(normalized: Seq<char>) -> RecoveryDisposition {
    if normalized == "WAITING_APPROVAL"@ {
        RecoveryDisposition::AwaitingApproval
    } else if normalized == "WAITING_TOOL"@ {
        RecoveryDisposition::AwaitingTool
    } else if normalized == "WAITING_SUBAGENT"@ {
        RecoveryDisposition::AwaitingDelegation
    } else if normalized == "SUSPENDED"@ {
        RecoveryDisposition::Suspended
    } else if normalized == "COMPLETED"@ {
        RecoveryDisposition::Completed
    } else if normalized == "FAILED"@ {
        RecoveryDisposition::Failed
    } else {
        RecoveryDisposition::ResumeCurrent
    }
}

pub fn disposition_for(normalized: &str) -> (d: RecoveryDisposition)
    ensures
        d == disposition_of(normalized@),
        (d == RecoveryDisposition::AwaitingTool) <==> normalized@ == "WAITING_TOOL"@,
        (d == RecoveryDisposition::AwaitingApproval) <==> normalized@ == "WAITING_APPROVAL"@,
{
    proof { lemma_each_state_has_its_disposition(normalized@); }
    if text_is(normalized, "WAITING_APPROVAL") {
        RecoveryDisposition::AwaitingApproval
    } else if text_is(normalized, "WAITING_TOOL") {
        RecoveryDisposition::AwaitingTool
    } else if text_is(normalized, "WAITING_SUBAGENT") {
        RecoveryDisposition::AwaitingDelegation
    } else if text_is(normalized, "SUSPENDED") {
        RecoveryDisposition::Suspended
    } else if text_is(normalized, "COMPLETED") {
        RecoveryDisposition::Completed
    } else if text_is(normalized, "FAILED") {
        RecoveryDisposition::Failed
    } else {
        RecoveryDisposition::ResumeCurrent
    }
}

/// The action that recovery recommends: replay first if events happened after the
/// checkpoint, otherwise the action that fits the disposition.
pub open spec fn action_of(d: RecoveryDisposition, requires_replay: bool) -> RecoveryAction {
    if requires_replay {
        RecoveryAction::ReplayTailEvents
    } else {
        match d {
            RecoveryDisposition::ResumeCurrent => RecoveryAction::ResumeExecution,
            RecoveryDisposition::AwaitingApproval => RecoveryAction::AwaitApprovalDecision,
            RecoveryDisposition::AwaitingTool => RecoveryAction::AwaitToolCompletion,
            RecoveryDisposition::AwaitingDelegation => RecoveryAction::AwaitDelegationCompletion,
            RecoveryDisposition::Suspended => RecoveryAction::StaySuspended,
            RecoveryDisposition::Completed => RecoveryAction::AcceptCompletedState,
            RecoveryDisposition::Failed => RecoveryAction::EscalateFailure,
        }
    }
}

pub fn recommended_action(d: RecoveryDisposition, requires_replay: bool) -> (a: RecoveryAction)
    ensures
        a == action_of(d, requires_replay),
{
    if requires_replay {
        RecoveryAction::ReplayTailEvents
    } else {
        match d {
            RecoveryDisposition::ResumeCurrent => RecoveryAction::ResumeExecution,
            RecoveryDisposition::AwaitingApproval => RecoveryAction::AwaitApprovalDecision,
            RecoveryDisposition::AwaitingTool => RecoveryAction::AwaitToolCompletion,
            RecoveryDisposition::AwaitingDelegation => RecoveryAction::AwaitDelegationCompletion,
            RecoveryDisposition::Suspended => RecoveryAction::StaySuspended,
            RecoveryDisposition::Completed => RecoveryAction::AcceptCompletedState,
            RecoveryDisposition::Failed => RecoveryAction::EscalateFailure,
        }
    }
}

pub open spec fn terminal_disposition(d: RecoveryDisposition) -> bool {
    d == RecoveryDisposition::Completed || d == RecoveryDisposition::Failed
}

/// The assessment of a checkpoint, made without applying it.
pub struct RecoveryAssessmentResult {
    pub instance_id: u128,
    pub checkpoint_id: u128,
    pub disposition: RecoveryDisposition,
    pub requires_replay: bool,
    pub recommended_action: RecoveryAction,
    pub terminal: bool,
}

impl RecoveryAssessmentResult {
    pub fn is_terminal(&self) -> (t: bool)
        ensures
            t == self.terminal,
    {
        self.terminal
    }
}

/// How many of the event times come strictly after `t`.
pub open spec fn count_after(times: Seq<i64>, t: i64) -> nat
    decreases times.len(),
{
    if times.len() == 0 {
        0
    } else {
        count_after(times.drop_last(), t) + if times.last() > t { 1nat } else { 0nat }
    }
}

/// Counts the events that happened after the checkpoint was taken.
pub fn count_events_after(times: &[i64], t: i64) -> (n: usize)
    ensures
        n == count_after(times@, t),
{
    let mut n: usize = 0;
    let mut i: usize = 0;
    while i < times.len()
        invariant
            i <= times@.len(),
            n == count_after(times@.take(i as int), t),
            n <= i,
        decreases times@.len() - i,
    {
        assert(times@.take(i + 1).drop_last() =~= times@.take(i as int));
        if times[i] > t {
            n = n + 1;
        }
        i = i + 1;
    }
    assert(times@.take(times@.len() as int) =~= times@);
    n
}

/// The state that a checkpoint records, or `CREATED` when it records none.
pub open spec fn recorded_state(state: Option<Seq<char>>) -> Seq<char> {
    match state {
        Some(s) => s,
        None => "CREATED"@,
    }
}

/// Assesses a checkpoint from what persistence holds: the state it recorded (if
/// any), when it was taken, and when the instance's events happened.
pub fn assess_recovery(
    instance_id: u128,
    checkpoint_id: u128,
    recorded: Option<&str>,
    checkpoint_time: i64,
    event_times: &[i64],
) -> (r: RecoveryAssessmentResult)
    ensures
        r.instance_id == instance_id,
        r.checkpoint_id == checkpoint_id,
        r.disposition == disposition_of(spec_normalize_status(recorded_state(match recorded { Some(s) => Some(s@), None => None }))),
        r.requires_replay == (count_after(event_times@, checkpoint_time) > 0),
        r.recommended_action == action_of(r.disposition, r.requires_replay),
        r.terminal == terminal_disposition(r.disposition),
{
    let state = match recorded {
        Some(s) => s,
        None => "CREATED",
    };
    let normalized = normalize_status(state);
    let disposition = disposition_for(normalized.as_str());
    let requires_replay = count_events_after(event_times, checkpoint_time) > 0;
    let recommended_action = recommended_action(disposition, requires_replay);
    let terminal = match disposition {
        RecoveryDisposition::Completed | RecoveryDisposition::Failed => true,
        _ => false,
    };
    RecoveryAssessmentResult { instance_id, checkpoint_id, disposition, requires_replay, recommended_action, terminal }
}

/// The instance status that restoring a checkpoint with this normalised state sets.
pub open spec fn restored_status_of(normalized: Seq<char>) -> AgentInstanceStatus {
    if normalized == "READY"@ {
        AgentInstanceStatus::Ready
    } else if normalized == "RUNNING"@ {
        AgentInstanceStatus::Running
    } else if normalized == "SUSPENDED"@ {
        AgentInstanceStatus::Suspended
    } else if normalized == "WAITING_SUBAGENT"@ {
        AgentInstanceStatus::WaitingSubagent
    } else if normalized == "WAITING_APPROVAL"@ {
        AgentInstanceStatus::WaitingApproval
    } else if normalized == "WAITING_TOOL"@ {
        AgentInstanceStatus::WaitingTool
    } else {
        AgentInstanceStatus::Created
    }
}

/// The status to restore from a checkpoint's recorded state.
pub fn restored_status(recorded: &str) -> (st: AgentInstanceStatus)
    ensures
        st == restored_status_of(spec_normalize_status(recorded@)),
{
    let n = normalize_status(recorded);
    let s = n.as_str();
    if text_is(s, "READY") {
        AgentInstanceStatus::Ready
    } else if text_is(s, "RUNNING") {
        AgentInstanceStatus::Running
    } else if text_is(s, "SUSPENDED") {
        AgentInstanceStatus::Suspended
    } else if text_is(s, "WAITING_SUBAGENT") {
        AgentInstanceStatus::WaitingSubagent
    } else if text_is(s, "WAITING_APPROVAL") {
        AgentInstanceStatus::WaitingApproval
    } else if text_is(s, "WAITING_TOOL") {
        AgentInstanceStatus::WaitingTool
    } else {
        AgentInstanceStatus::Created
    }
}

/// A write that restoring a checkpoint makes to an instance: set the restored
/// status, replay the instance's event at this index, or reconcile its state.
#[derive(Debug, Clone, Copy, PartialEq, Eq, Structural)]
pub enum RestoreCall {
    SetStatus(AgentInstanceStatus),
    Replay(usize),
    Reconcile,
}

/// The indices of the events that happened after the checkpoint, in order.
pub open spec fn tail_indices(event_times: Seq<i64>, checkpoint_time: i64) -> Seq<int> {
    Seq::new(event_times.len(), |i: int| i).filter(|i: int| event_times[i] > checkpoint_time)
}

/// The writes of a restore, in order: the status that the checkpoint recorded (when
/// it recorded one), then the replay of every later event in the order of the
/// events, then (for a restore in place) the reconciliation.
pub open spec fn restore_calls_spec(recorded: Option<Seq<char>>, event_times: Seq<i64>, checkpoint_time: i64, reconcile: bool) -> Seq<RestoreCall> {
    let status = match recorded {
        Some(r) => seq![RestoreCall::SetStatus(restored_status_of(spec_normalize_status(r)))],
        None => seq![],
    };
    status + tail_indices(event_times, checkpoint_time).map_values(|i: int| RestoreCall::Replay(i as usize))
        + if reconcile { seq![RestoreCall::Reconcile] } else { seq![] }
}

/// The writes of restoring a checkpoint: in place (with reconciliation) when an
/// instance is restored or resumed, or onto the new instance of a time-travel
/// branch (without it). They are planned from what was read (the recorded state
/// and the events' times), so every read comes before the first write.
pub fn restore_calls(recorded: Option<&str>, event_times: &[i64], checkpoint_time: i64, reconcile: bool) -> (calls: Vec<RestoreCall>)
    ensures
        calls@ == restore_calls_spec(match recorded { Some(r) => Some(r@), None => None }, event_times@, checkpoint_time, reconcile),
{
    let mut calls: Vec<RestoreCall> = Vec::new();
    if let Some(r) = recorded {
        calls.push(RestoreCall::SetStatus(restored_status(r)));
    }
    let ghost status = calls@;
    let ghost all = Seq::new(event_times@.len(), |i: int| i);
    let ghost pred = |i: int| event_times@[i] > checkpoint_time;
    let ghost f = |i: int| RestoreCall::Replay(i as usize);
    let mut i: usize = 0;
    while i < event_times.len()
        invariant
            i <= event_times@.len(),
            all == Seq::new(event_times@.len(), |i: int| i),
            pred == (|i: int| event_times@[i] > checkpoint_time),
            f == (|i: int| RestoreCall::Replay(i as usize)),
            calls@ == status + all.take(i as int).filter(pred).map_values(f),
        decreases event_times@.len() - i,
    {
        proof {
            let pre = all.take(i as int);
            assert(all.take(i + 1) =~= pre.push(i as int));
            reveal(Seq::filter);
            assert(pre.push(i as int).drop_last() =~= pre);
        }
        if event_times[i] > checkpoint_time {
            calls.push(RestoreCall::Replay(i));
            assert(all.take(i + 1).filter(pred) == all.take(i as int).filter(pred).push(i as int));
            assert(calls@ =~= status + all.take(i + 1).filter(pred).map_values(f));
        } else {
            assert(calls@ =~= status + all.take(i + 1).filter(pred).map_values(f));
        }
        i = i + 1;
    }
    assert(all.take(event_times@.len() as int) =~= all);
    if reconcile {
        calls.push(RestoreCall::Reconcile);
    }
    assert(calls@ =~= restore_calls_spec(match recorded { Some(r) => Some(r@), None => None }, event_times@, checkpoint_time, reconcile));
    calls
}

/// Where resuming an instance starts from.
#[derive(Debug, Clone, Copy, PartialEq, Eq, Structural)]
pub enum ResumeFrom {
    /// Restore this checkpoint, the instance's latest.
    Checkpoint(u128),
    /// No checkpoint exists: the instance is returned as it is.
    CurrentState,
}

/// Resuming restores the instance's latest checkpoint when it has one.
pub fn resume_from(latest_checkpoint: Option<u128>) -> (r: ResumeFrom)
    ensures
        r == (match latest_checkpoint {
            Some(c) => ResumeFrom::Checkpoint(c),
            None => ResumeFrom::CurrentState,
        }),
{
    match latest_checkpoint {
        Some(c) => ResumeFrom::Checkpoint(c),
        None => ResumeFrom::CurrentState,
    }
}

/// A restore sets the status before it replays any event, replays the later events
/// in their order, and reconciles last.
pub proof fn lemma_restore_order(recorded: Option<Seq<char>>, event_times: Seq<i64>, checkpoint_time: i64, reconcile: bool)
    requires
        event_times.len() <= usize::MAX,
    ensures
        ({
            let calls = restore_calls_spec(recorded, event_times, checkpoint_time, reconcile);
            &&& forall|a: int, b: int| 0 <= a < calls.len() && 0 <= b < calls.len()
                && (#[trigger] calls[a]) is Replay && (#[trigger] calls[b]) is SetStatus ==> b < a
            &&& forall|a: int, b: int| 0 <= a < b < calls.len() && (#[trigger] calls[a]) is Replay && (#[trigger] calls[b]) is Replay
                ==> calls[a]->Replay_0 < calls[b]->Replay_0
            &&& forall|a: int| 0 <= a < calls.len() && (#[trigger] calls[a]) is Replay ==> event_times[calls[a]->Replay_0 as int] > checkpoint_time
            &&& forall|a: int| 0 <= a < calls.len() - 1 ==> !((#[trigger] calls[a]) is Reconcile)
        }),
{
    let status = match recorded {
        Some(r) => seq![RestoreCall::SetStatus(restored_status_of(spec_normalize_status(r)))],
        None => seq![],
    };
    let tail = tail_indices(event_times, checkpoint_time);
    let replays = tail.map_values(|i: int| RestoreCall::Replay(i as usize));
    let rec = if reconcile { seq![RestoreCall::Reconcile] } else { Seq::<RestoreCall>::empty() };
    let calls = restore_calls_spec(recorded, event_times, checkpoint_time, reconcile);
    assert(calls == status + replays + rec);
    lemma_tail_indices(event_times, checkpoint_time);
    assert forall|a: int| 0 <= a < calls.len() && status.len() <= a < status.len() + replays.len() implies calls[a] == RestoreCall::Replay(tail[a - status.len()] as usize)
        && calls[a]->Replay_0 as int == tail[a - status.len()] by {
        assert(calls[a] == replays[a - status.len()]);
        assert(0 <= tail[a - status.len()] < event_times.len());
    }
    assert forall|a: int| 0 <= a < calls.len() && (#[trigger] calls[a]) is Replay implies status.len() <= a < status.len() + replays.len() by {
        if a < status.len() {
            assert(calls[a] == status[a]);
        } else if a >= status.len() + replays.len() {
            assert(calls[a] == rec[a - status.len() - replays.len()]);
        }
    }
    assert forall|a: int| 0 <= a < calls.len() && (a < status.len() || a >= status.len() + replays.len()) implies !(#[trigger] calls[a] is Replay) by {
        if a < status.len() {
            assert(calls[a] == status[a]);
        } else {
            assert(calls[a] == rec[a - status.len() - replays.len()]);
        }
    }
    assert forall|a: int| 0 <= a < calls.len() && a >= status.len() implies !(#[trigger] calls[a] is SetStatus) by {
        if a < status.len() + replays.len() {
            assert(calls[a] == replays[a - status.len()]);
        } else {
            assert(calls[a] == rec[a - status.len() - replays.len()]);
        }
    }
    assert forall|a: int| 0 <= a < calls.len() - 1 implies !((#[trigger] calls[a]) is Reconcile) by {
        if a < status.len() {
            assert(calls[a] == status[a]);
        } else if a < status.len() + replays.len() {
            assert(calls[a] == replays[a - status.len()]);
        } else {
            assert(rec.len() == 1);
        }
    }
}

/// The later events' indices are in range, increasing, and name later events.
proof fn lemma_tail_indices(event_times: Seq<i64>, checkpoint_time: i64)
    ensures
        ({
            let tail = tail_indices(event_times, checkpoint_time);
            &&& forall|k: int| 0 <= k < tail.len() ==> 0 <= #[trigger] tail[k] < event_times.len()
                && event_times[tail[k]] > checkpoint_time
            &&& forall|a: int, b: int| 0 <= a < b < tail.len() ==> #[trigger] tail[a] < #[trigger] tail[b]
        }),
    decreases event_times.len(),
{
    let all = Seq::new(event_times.len(), |i: int| i);
    let pred = |i: int| event_times[i] > checkpoint_time;
    lemma_filter_increasing(all, pred, event_times.len() as int);
}

proof fn lemma_filter_increasing(all: Seq<int>, pred: spec_fn(int) -> bool, n: int)
    requires
        all.len() == n,
        forall|i: int| 0 <= i < n ==> #[trigger] all[i] == i,
    ensures
        forall|k: int| 0 <= k < all.filter(pred).len() ==> 0 <= #[trigger] all.filter(pred)[k] < n && pred(all.filter(pred)[k]),
        forall|a: int, b: int| 0 <= a < b < all.filter(pred).len() ==> #[trigger] all.filter(pred)[a] < #[trigger] all.filter(pred)[b],
    decreases n,
{
    reveal(Seq::filter);
    if n > 0 {
        let pre = all.drop_last();
        assert forall|i: int| 0 <= i < n - 1 implies #[trigger] pre[i] == i by {
            assert(pre[i] == all[i]);
        }
        lemma_filter_increasing(pre, pred, n - 1);
        assert(all.filter(pred) == if pred(all.last()) { pre.filter(pred).push(all.last()) } else { pre.filter(pred) });
    }
}

/// Each recorded state has its own disposition: only `WAITING_APPROVAL` awaits an
/// approval, only `WAITING_TOOL` a tool, only `WAITING_SUBAGENT` a delegation, only
/// `SUSPENDED` stays suspended, only `COMPLETED` and `FAILED` are completed and
/// failed; any other state resumes.
pub proof fn lemma_each_state_has_its_disposition(normalized: Seq<char>)
    ensures
        (disposition_of(normalized) == RecoveryDisposition::AwaitingApproval) <==> normalized == "WAITING_APPROVAL"@,
        (disposition_of(normalized) == RecoveryDisposition::AwaitingTool) <==> normalized == "WAITING_TOOL"@,
        (disposition_of(normalized) == RecoveryDisposition::AwaitingDelegation) <==> normalized == "WAITING_SUBAGENT"@,
        (disposition_of(normalized) == RecoveryDisposition::Suspended) <==> normalized == "SUSPENDED"@,
        (disposition_of(normalized) == RecoveryDisposition::Completed) <==> normalized == "COMPLETED"@,
        (disposition_of(normalized) == RecoveryDisposition::Failed) <==> normalized == "FAILED"@,
{
    reveal_strlit("WAITING_APPROVAL");
    reveal_strlit("WAITING_TOOL");
    reveal_strlit("WAITING_SUBAGENT");
    reveal_strlit("SUSPENDED");
    reveal_strlit("COMPLETED");
    reveal_strlit("FAILED");
    let a = "WAITING_APPROVAL"@;
    let t = "WAITING_TOOL"@;
    let d = "WAITING_SUBAGENT"@;
    let s = "SUSPENDED"@;
    let c = "COMPLETED"@;
    let f = "FAILED"@;
    assert(a.len() == 16 && t.len() == 12 && d.len() == 16 && s.len() == 9 && c.len() == 9 && f.len() == 6);
    assert(a[8] != d[8]);
    assert(s[0] != c[0]);
}

/// With no events after the checkpoint, every disposition has its own action: only
/// awaiting a tool awaits its completion, only awaiting an approval awaits the
/// decision, and so on; with events after it, the action is to replay them first.
pub proof fn lemma_each_disposition_has_its_action(d: RecoveryDisposition, e: RecoveryDisposition, requires_replay: bool)
    ensures
        requires_replay ==> action_of(d, requires_replay) == RecoveryAction::ReplayTailEvents,
        action_of(d, false) != RecoveryAction::ReplayTailEvents,
        action_of(d, false) == action_of(e, false) ==> d == e,
        (action_of(d, false) == RecoveryAction::AwaitToolCompletion) <==> d == RecoveryDisposition::AwaitingTool,
        (action_of(d, false) == RecoveryAction::AwaitApprovalDecision) <==> d == RecoveryDisposition::AwaitingApproval,
        (action_of(d, false) == RecoveryAction::AwaitDelegationCompletion) <==> d == RecoveryDisposition::AwaitingDelegation,
        (action_of(d, false) == RecoveryAction::ResumeExecution) <==> d == RecoveryDisposition::ResumeCurrent,
        (action_of(d, false) == RecoveryAction::StaySuspended) <==> d == RecoveryDisposition::Suspended,
        (action_of(d, false) == RecoveryAction::AcceptCompletedState) <==> d == RecoveryDisposition::Completed,
        (action_of(d, false) == RecoveryAction::EscalateFailure) <==> d == RecoveryDisposition::Failed,
{
}

/// Only a completed or failed instance is left as it is.
pub proof fn lemma_terminal_iff_completed_or_failed(d: RecoveryDisposition)
    ensures
        terminal_disposition(d) <==> (action_of(d, false) == RecoveryAction::AcceptCompletedState
            || action_of(d, false) == RecoveryAction::EscalateFailure),
{
}

/// Events after the checkpoint always come first: recovery replays them whatever
/// the recorded state.
pub proof fn lemma_replay_comes_first(d: RecoveryDisposition)
    ensures
        action_of(d, true) == RecoveryAction::ReplayTailEvents,
        action_of(d, false) != RecoveryAction::ReplayTailEvents,
{
}

/// Normalising a name that is already in upper snake case changes nothing.
pub proof fn lemma_normalize_keeps_snake_case(s: Seq<char>)
    requires
        spec_contains(s, seq!['_']),
    ensures
        spec_normalize_status(s) == s,
{
}

/// How healthy a team is, as recovery sees it.
#[derive(Debug, Clone, Copy, PartialEq, Eq, Structural)]
pub enum TeamRecoveryDisposition {
    TeamHealthy,
    TeamDegraded,
    TeamFailed,
    AwaitingSupervisor,
}

/// A member as team recovery sees it: its id and its status text.
pub struct MemberStatus {
    pub id: u128,
    pub status: String,
}

/// The member status texts that count as failed.
pub open spec fn is_failed_status(s: Seq<char>) -> bool {
    s == "Failed"@ || s == "failed"@
}

/// The member status texts that count as waiting for the other members.
pub open spec fn is_waiting_status(s: Seq<char>) -> bool {
    s == "WaitingMembers"@ || s == "WAITING_MEMBERS"@
}

/// The ids of the failed members, in order.
pub open spec fn failed_ids(ms: Seq<(u128, Seq<char>)>) -> Seq<u128>
    decreases ms.len(),
{
    if ms.len() == 0 {
        seq![]
    } else {
        failed_ids(ms.drop_last()) + if is_failed_status(ms.last().1) { seq![ms.last().0] } else { seq![] }
    }
}

/// The ids of the waiting members, in order.
pub open spec fn waiting_ids(ms: Seq<(u128, Seq<char>)>) -> Seq<u128>
    decreases ms.len(),
{
    if ms.len() == 0 {
        seq![]
    } else {
        waiting_ids(ms.drop_last()) + if is_waiting_status(ms.last().1) { seq![ms.last().0] } else { seq![] }
    }
}

/// The team's disposition from how many of its members failed and wait.
pub open spec fn team_disposition(failed: nat, waiting: nat, total: nat) -> TeamRecoveryDisposition {
    if failed == 0 && waiting == 0 {
        TeamRecoveryDisposition::TeamHealthy
    } else if failed > 0 && failed < total {
        TeamRecoveryDisposition::TeamDegraded
    } else if failed == total && total > 0 {
        TeamRecoveryDisposition::TeamFailed
    } else if waiting > 0 && failed == 0 {
        TeamRecoveryDisposition::AwaitingSupervisor
    } else {
        TeamRecoveryDisposition::TeamHealthy
    }
}

/// The advice that goes with a disposition.
pub open spec fn team_recommendation(d: TeamRecoveryDisposition, failed: nat, total: nat) -> Seq<char> {
    match d {
        TeamRecoveryDisposition::TeamHealthy => "Team is operational"@,
        TeamRecoveryDisposition::TeamDegraded => "Team is degraded with "@ + spec_decimal(failed) + " failed members out of "@
            + spec_decimal(total) + ". Consider retry or replacement."@,
        TeamRecoveryDisposition::TeamFailed => "All team members have failed. Escalate to supervisor for recovery."@,
        TeamRecoveryDisposition::AwaitingSupervisor => "Team is waiting for supervisor guidance."@,
    }
}

/// A team's recovery assessment.
pub struct TeamRecoveryAssessment {
    pub team_instance_id: u128,
    pub disposition: TeamRecoveryDisposition,
    pub failed_member_ids: Vec<u128>,
    pub recommendation: String,
}

pub open spec fn member_views(ms: Seq<MemberStatus>) -> Seq<(u128, Seq<char>)> {
    ms.map_values(|m: MemberStatus| (m.id, m.status@))
}

fn is_failed(s: &str) -> (r: bool)
    ensures
        r == is_failed_status(s@),
{
    text_is(s, "Failed") || text_is(s, "failed")
}

fn is_waiting(s: &str) -> (r: bool)
    ensures
        r == is_waiting_status(s@),
{
    text_is(s, "WaitingMembers") || text_is(s, "WAITING_MEMBERS")
}

fn push_str(out: &mut Vec<char>, s: &str)
    ensures
        final(out)@ == old(out)@ + s@,
{
    let c = chars_of(s);
    append_chars(out, c.as_slice());
}

/// Assesses a team from its members' statuses.
pub fn assess_team_recovery(team_instance_id: u128, members: &[MemberStatus]) -> (a: TeamRecoveryAssessment)
    ensures
        a.team_instance_id == team_instance_id,
        a.failed_member_ids@ == failed_ids(member_views(members@)),
        a.disposition == team_disposition(
            failed_ids(member_views(members@)).len(),
            waiting_ids(member_views(members@)).len(),
            members@.len(),
        ),
        a.recommendation@ == team_recommendation(a.disposition, failed_ids(member_views(members@)).len(), members@.len()),
{
    let ghost ms = member_views(members@);
    let mut failed: Vec<u128> = Vec::new();
    let mut waiting: usize = 0;
    let mut i: usize = 0;
    while i < members.len()
        invariant
            i <= members@.len(),
            ms == member_views(members@),
            failed@ == failed_ids(ms.take(i as int)),
            waiting == waiting_ids(ms.take(i as int)).len(),
            failed@.len() <= i,
            waiting <= i,
        decreases members@.len() - i,
    {
        assert(ms.take(i + 1).drop_last() =~= ms.take(i as int));
        assert(ms.take(i + 1).last() == (members@[i as int].id, members@[i as int].status@));
        if is_failed(members[i].status.as_str()) {
            failed.push(members[i].id);
        }
        if is_waiting(members[i].status.as_str()) {
            waiting = waiting + 1;
        }
        i = i + 1;
    }
    assert(ms.take(members@.len() as int) =~= ms);
    let total = members.len();
    let failed_count = failed.len();
    let disposition = if failed_count == 0 && waiting == 0 {
        TeamRecoveryDisposition::TeamHealthy
    } else if failed_count > 0 && failed_count < total {
        TeamRecoveryDisposition::TeamDegraded
    } else if failed_count == total && total > 0 {
        TeamRecoveryDisposition::TeamFailed
    } else if waiting > 0 && failed_count == 0 {
        TeamRecoveryDisposition::AwaitingSupervisor
    } else {
        TeamRecoveryDisposition::TeamHealthy
    };
    let recommendation = match disposition {
        TeamRecoveryDisposition::TeamHealthy => String::from_str("Team is operational"),
        TeamRecoveryDisposition::TeamDegraded => {
            let mut out: Vec<char> = Vec::new();
            push_str(&mut out, "Team is degraded with ");
            let f = decimal(failed_count);
            append_chars(&mut out, f.as_slice());
            push_str(&mut out, " failed members out of ");
            let t = decimal(total);
            append_chars(&mut out, t.as_slice());
            push_str(&mut out, ". Consider retry or replacement.");
            string_of(out.as_slice())
        },
        TeamRecoveryDisposition::TeamFailed => String::from_str("All team members have failed. Escalate to supervisor for recovery."),
        TeamRecoveryDisposition::AwaitingSupervisor => String::from_str("Team is waiting for supervisor guidance."),
    };
    TeamRecoveryAssessment { team_instance_id, disposition, failed_member_ids: failed, recommendation }
}

/// A team where nobody failed or waits is healthy; one where everybody failed has failed.
pub proof fn lemma_team_disposition_extremes(total: nat, waiting: nat)
    ensures
        team_disposition(0, 0, total) == TeamRecoveryDisposition::TeamHealthy,
        total > 0 ==> team_disposition(total, waiting, total) == TeamRecoveryDisposition::TeamFailed,
        0 < waiting ==> team_disposition(0, waiting, total) == TeamRecoveryDisposition::AwaitingSupervisor,
{
}

/// The states of a team task.
#[derive(Debug, Clone, Copy, PartialEq, Eq, Structural)]
pub enum TeamTaskStatus {
    Open,
    InProgress,
    Completed,
    Failed,
}

/// What recovering a team task did.
#[derive(Debug, Clone, Copy, PartialEq, Eq, Structural)]
pub enum TeamRecoveryAction {
    Retry,
    EscalateToSupervisor,
    NoOp,
}

/// How many times a failed team task is retried before it goes to the supervisor.
pub const MAX_TEAM_TASK_RETRIES: i32 = 3;

/// The plan for recovering a team task: what to do, the status it ends in, and the
/// new retry count to store (when it changes).
pub open spec fn task_recovery_plan(status: TeamTaskStatus, retry_count: i32) -> (TeamRecoveryAction, TeamTaskStatus, Option<i32>) {
    if status == TeamTaskStatus::Failed {
        if retry_count < MAX_TEAM_TASK_RETRIES {
            (TeamRecoveryAction::Retry, TeamTaskStatus::Open, Some((retry_count + 1) as i32))
        } else {
            (TeamRecoveryAction::EscalateToSupervisor, status, None)
        }
    } else {
        (TeamRecoveryAction::NoOp, status, None)
    }
}

/// Decides how to recover a team task: a failed task is reopened with one more
/// retry counted until it has been retried three times, then it is escalated; any
/// other task is left alone.
pub fn plan_team_task_recovery(status: TeamTaskStatus, retry_count: i32) -> (p: (TeamRecoveryAction, TeamTaskStatus, Option<i32>))
    ensures
        p == task_recovery_plan(status, retry_count),
{
    if status == TeamTaskStatus::Failed {
        if retry_count < MAX_TEAM_TASK_RETRIES {
            (TeamRecoveryAction::Retry, TeamTaskStatus::Open, Some(retry_count + 1))
        } else {
            (TeamRecoveryAction::EscalateToSupervisor, status, None)
        }
    } else {
        (TeamRecoveryAction::NoOp, status, None)
    }
}

/// A task that keeps failing from no retries is retried exactly three times and
/// then escalated.
pub proof fn lemma_failed_task_retried_three_times(r: i32)
    requires
        0 <= r,
    ensures
        r < 3 ==> task_recovery_plan(TeamTaskStatus::Failed, r).0 == TeamRecoveryAction::Retry
            && task_recovery_plan(TeamTaskStatus::Failed, r).2 == Some((r + 1) as i32),
        r >= 3 ==> task_recovery_plan(TeamTaskStatus::Failed, r).0 == TeamRecoveryAction::EscalateToSupervisor,
{
}

/// The kinds of context a checkpoint anchors to.
#[derive(Debug, Clone, Copy, PartialEq, Eq, Structural)]
pub enum ContextAnchorType {
    MemoryEntry,
    ExternalContextRef,
    SharedState,
    EventAnchor,
    Artifact,
}

/// A difference between a checkpoint and the present state.
pub struct Inconsistency {
    pub anchor_type: ContextAnchorType,
    pub reference_id: u128,
    pub description: String,
}

pub struct InconsistencyView {
    pub anchor_type: ContextAnchorType,
    pub reference_id: u128,
    pub description: Seq<char>,
}

impl View for Inconsistency {
    type V = InconsistencyView;

    open spec fn view(&self) -> InconsistencyView {
        InconsistencyView { anchor_type: self.anchor_type, reference_id: self.reference_id, description: self.description@ }
    }
}

/// The differences between a checkpoint and the present: a recorded state that
/// differs (once normalised) from the current one, and anchors without an event
/// anchor when no event followed the checkpoint.
pub open spec fn spec_inconsistencies(
    instance_id: u128,
    recorded: Option<Seq<char>>,
    current: Seq<char>,
    events_after: nat,
    anchors: Seq<ContextAnchorType>,
) -> Seq<InconsistencyView> {
    let first = match recorded {
        Some(st) => if spec_normalize_status(st) != current {
            seq![InconsistencyView {
                anchor_type: ContextAnchorType::MemoryEntry,
                reference_id: instance_id,
                description: "State mismatch: checkpoint="@ + spec_normalize_status(st) + ", current="@ + current,
            }]
        } else {
            seq![]
        },
        None => seq![],
    };
    let second = if events_after == 0 && anchors.len() > 0 && !anchors.contains(ContextAnchorType::EventAnchor) {
        seq![InconsistencyView {
            anchor_type: ContextAnchorType::EventAnchor,
            reference_id: instance_id,
            description: "No events after checkpoint but no EventAnchor found"@,
        }]
    } else {
        seq![]
    };
    first + second
}

fn has_event_anchor(anchors: &[ContextAnchorType]) -> (r: bool)
    ensures
        r == anchors@.contains(ContextAnchorType::EventAnchor),
{
    let mut i: usize = 0;
    while i < anchors.len()
        invariant
            i <= anchors@.len(),
            forall|j: int| 0 <= j < i ==> anchors@[j] != ContextAnchorType::EventAnchor,
        decreases anchors@.len() - i,
    {
        if anchors[i] == ContextAnchorType::EventAnchor {
            return true;
        }
        i = i + 1;
    }
    false
}

/// Finds the differences between a checkpoint and the instance as it is now.
pub fn detect_inconsistencies(
    instance_id: u128,
    recorded: Option<&str>,
    current: &str,
    events_after: usize,
    anchors: &[ContextAnchorType],
) -> (v: Vec<Inconsistency>)
    ensures
        v@.len() == spec_inconsistencies(instance_id, match recorded { Some(s) => Some(s@), None => None }, current@, events_after as nat, anchors@).len(),
        forall|k: int| 0 <= k < v@.len() ==> #[trigger] v@[k]@
            == spec_inconsistencies(instance_id, match recorded { Some(s) => Some(s@), None => None }, current@, events_after as nat, anchors@)[k],
{
    let mut v: Vec<Inconsistency> = Vec::new();
    match recorded {
        Some(st) => {
            let normalized = normalize_status(st);
            let n_chars = chars_of(normalized.as_str());
            let c_chars = chars_of(current);
            if !chars_equal(n_chars.as_slice(), c_chars.as_slice()) {
                let mut out: Vec<char> = Vec::new();
                push_str(&mut out, "State mismatch: checkpoint=");
                append_chars(&mut out, n_chars.as_slice());
                push_str(&mut out, ", current=");
                append_chars(&mut out, c_chars.as_slice());
                v.push(Inconsistency {
                    anchor_type: ContextAnchorType::MemoryEntry,
                    reference_id: instance_id,
                    description: string_of(out.as_slice()),
                });
            }
        },
        None => {},
    }
    if events_after == 0 && anchors.len() > 0 && !has_event_anchor(anchors) {
        v.push(Inconsistency {
            anchor_type: ContextAnchorType::EventAnchor,
            reference_id: instance_id,
            description: String::from_str("No events after checkpoint but no EventAnchor found"),
        });
    }
    v
}

/// How many anchors a restore can vouch for: event and artifact anchors always,
/// the others when their lookup found them. Nothing counts without the memory repository.
pub open spec fn restored_count(anchors: Seq<ContextAnchorType>, found: Seq<bool>) -> nat
    decreases anchors.len(),
{
    if anchors.len() == 0 || found.len() != anchors.len() {
        0
    } else {
        restored_count(anchors.drop_last(), found.drop_last())
            + if anchors.last() == ContextAnchorType::EventAnchor || anchors.last() == ContextAnchorType::Artifact
                || found.last() { 1nat } else { 0nat }
    }
}

/// Counts the anchors that a restore re-established, given whether each one's lookup found it.
pub fn count_restored_anchors(repo_configured: bool, anchors: &[ContextAnchorType], found: &[bool]) -> (n: usize)
    requires
        anchors@.len() == found@.len(),
    ensures
        n == if repo_configured { restored_count(anchors@, found@) } else { 0 },
{
    if !repo_configured {
        return 0;
    }
    let mut n: usize = 0;
    let mut i: usize = 0;
    while i < anchors.len()
        invariant
            i <= anchors@.len(),
            anchors@.len() == found@.len(),
            n == restored_count(anchors@.take(i as int), found@.take(i as int)),
            n <= i,
        decreases anchors@.len() - i,
    {
        assert(anchors@.take(i + 1).drop_last() =~= anchors@.take(i as int));
        assert(found@.take(i + 1).drop_last() =~= found@.take(i as int));
        match anchors[i] {
            ContextAnchorType::EventAnchor | ContextAnchorType::Artifact => { n = n + 1; },
            _ => { if found[i] { n = n + 1; } },
        }
        i = i + 1;
    }
    assert(anchors@.take(anchors@.len() as int) =~= anchors@);
    assert(found@.take(found@.len() as int) =~= found@);
    n
}

/// A checkpoint's anchor: the kind of context and the id it refers to.
#[derive(Debug, Clone, Copy, PartialEq, Eq, Structural)]
pub struct ContextAnchor {
    pub anchor_type: ContextAnchorType,
    pub reference_id: u128,
}

/// The position of the first event anchor among `anchors`.
pub open spec fn first_event_anchor(anchors: Seq<ContextAnchor>) -> Option<int> {
    if exists|k: int| 0 <= k < anchors.len() && anchors[k].anchor_type == ContextAnchorType::EventAnchor {
        Some(choose|k: int| 0 <= k < anchors.len() && anchors[k].anchor_type == ContextAnchorType::EventAnchor
            && forall|j: int| 0 <= j < k ==> anchors[j].anchor_type != ContextAnchorType::EventAnchor)
    } else {
        None
    }
}

/// The position of the first event with id `id`.
pub open spec fn first_event_with_id(ids: Seq<u128>, id: u128) -> Option<int> {
    if ids.contains(id) {
        Some(choose|k: int| 0 <= k < ids.len() && ids[k] == id && forall|j: int| 0 <= j < k ==> ids[j] != id)
    } else {
        None
    }
}

proof fn lemma_first_index(ids: Seq<u128>, id: u128, k: int)
    requires
        0 <= k < ids.len(),
        ids[k] == id,
        forall|j: int| 0 <= j < k ==> ids[j] != id,
    ensures
        first_event_with_id(ids, id) == Some(k),
{
    assert(ids.contains(id));
    let c = choose|c: int| 0 <= c < ids.len() && ids[c] == id && forall|j: int| 0 <= j < c ==> ids[j] != id;
    assert(c == k) by {
        if c < k { assert(ids[c] != id); }
        if k < c { assert(ids[k] != id); }
    }
}

/// The events to replay after an anchored restore: with an event anchor whose event
/// is among the instance's events, the positions of the events after that event's
/// time, in order; otherwise none.
pub open spec fn anchor_tail_spec(anchors: Seq<ContextAnchor>, ids: Seq<u128>, times: Seq<i64>) -> Seq<int> {
    match first_event_anchor(anchors) {
        Some(a) => match first_event_with_id(ids, anchors[a].reference_id) {
            Some(e) => Seq::new(times.len(), |k: int| k).filter(|k: int| times[k] > times[e]),
            None => seq![],
        },
        None => seq![],
    }
}

fn find_event_anchor(anchors: &[ContextAnchor]) -> (r: Option<usize>)
    ensures
        r matches Some(a) ==> first_event_anchor(anchors@) == Some(a as int) && a < anchors@.len(),
        r is None ==> first_event_anchor(anchors@) is None,
{
    let mut a: usize = 0;
    while a < anchors.len()
        invariant
            a <= anchors@.len(),
            forall|j: int| 0 <= j < a ==> anchors@[j].anchor_type != ContextAnchorType::EventAnchor,
        decreases anchors@.len() - a,
    {
        if anchors[a].anchor_type == ContextAnchorType::EventAnchor {
            proof {
                let w = a as int;
                assert(0 <= w < anchors@.len() && anchors@[w].anchor_type == ContextAnchorType::EventAnchor
                    && forall|j: int| 0 <= j < w ==> anchors@[j].anchor_type != ContextAnchorType::EventAnchor);
                let c = choose|c: int| 0 <= c < anchors@.len() && anchors@[c].anchor_type == ContextAnchorType::EventAnchor
                    && forall|j: int| 0 <= j < c ==> anchors@[j].anchor_type != ContextAnchorType::EventAnchor;
                if c < w {
                    assert(anchors@[c].anchor_type != ContextAnchorType::EventAnchor);
                }
                if w < c {
                    assert(anchors@[w].anchor_type != ContextAnchorType::EventAnchor);
                }
            }
            return Some(a);
        }
        a = a + 1;
    }
    None
}

fn find_event_id(ids: &[u128], target: u128) -> (r: Option<usize>)
    ensures
        r matches Some(e) ==> first_event_with_id(ids@, target) == Some(e as int) && e < ids@.len(),
        r is None ==> first_event_with_id(ids@, target) is None,
{
    let mut e: usize = 0;
    while e < ids.len()
        invariant
            e <= ids@.len(),
            forall|j: int| 0 <= j < e ==> ids@[j] != target,
        decreases ids@.len() - e,
    {
        if ids[e] == target {
            proof {
                lemma_first_index(ids@, target, e as int);
            }
            return Some(e);
        }
        e = e + 1;
    }
    assert(!ids@.contains(target));
    None
}

/// Finds the events that an anchored restore replays: those after the event that
/// the first event anchor refers to.
pub fn anchor_tail(anchors: &[ContextAnchor], ids: &[u128], times: &[i64]) -> (r: Vec<usize>)
    requires
        ids@.len() == times@.len(),
    ensures
        r@.len() == anchor_tail_spec(anchors@, ids@, times@).len(),
        forall|k: int| 0 <= k < r@.len() ==> #[trigger] r@[k] as int == anchor_tail_spec(anchors@, ids@, times@)[k],
{
    let a = match find_event_anchor(anchors) {
        Some(a) => a,
        None => { return Vec::new(); },
    };
    let target = anchors[a].reference_id;
    let e = match find_event_id(ids, target) {
        Some(e) => e,
        None => { return Vec::new(); },
    };
    let anchor_time = times[e];
    let ghost all = Seq::new(times@.len(), |k: int| k);
    let ghost pred = |k: int| times@[k] > anchor_time;
    let mut r: Vec<usize> = Vec::new();
    let mut i: usize = 0;
    while i < times.len()
        invariant
            i <= times@.len(),
            all == Seq::new(times@.len(), |k: int| k),
            pred == (|k: int| times@[k] > anchor_time),
            r@.len() == all.take(i as int).filter(pred).len(),
            forall|k: int| 0 <= k < r@.len() ==> #[trigger] r@[k] as int == all.take(i as int).filter(pred)[k],
        decreases times@.len() - i,
    {
        proof {
            let pre = all.take(i as int);
            assert(all.take(i + 1) =~= pre.push(i as int));
            reveal(Seq::filter);
            assert(pre.push(i as int).drop_last() =~= pre);
        }
        if times[i] > anchor_time {
            r.push(i);
        }
        i = i + 1;
    }
    assert(all.take(times@.len() as int) =~= all);
    r
}

/// What an anchored restore did.
pub struct RecoveryResult {
    pub checkpoint_id: u128,
    pub restored_anchors: usize,
    pub events_replayed: usize,
    pub inconsistencies_found: usize,
    pub resolutions_applied: usize,
}

/// How many replays succeeded.
pub open spec fn succeeded_count(replay_ok: Seq<bool>) -> nat
    decreases replay_ok.len(),
{
    if replay_ok.len() == 0 {
        0
    } else {
        succeeded_count(replay_ok.drop_last()) + if replay_ok.last() { 1nat } else { 0nat }
    }
}

proof fn lemma_succeeded_count_bounded(replay_ok: Seq<bool>)
    ensures
        succeeded_count(replay_ok) <= replay_ok.len(),
    decreases replay_ok.len(),
{
    if replay_ok.len() > 0 {
        lemma_succeeded_count_bounded(replay_ok.drop_last());
    }
}

/// The report of an anchored restore. `tail` is the events to replay (what
/// `anchor_tail` gives) and `replay_ok` says, event by event in that order, whether
/// its replay succeeded: the events replayed are the successful replays, so never
/// more than the tail holds. Every inconsistency found gets one resolution.
pub fn recovery_result(
    checkpoint_id: u128,
    restored_anchors: usize,
    tail: &[usize],
    replay_ok: &[bool],
    inconsistencies: &[Inconsistency],
) -> (r: RecoveryResult)
    requires
        replay_ok@.len() == tail@.len(),
    ensures
        r.checkpoint_id == checkpoint_id,
        r.restored_anchors == restored_anchors,
        r.events_replayed == succeeded_count(replay_ok@),
        r.events_replayed <= tail@.len(),
        r.inconsistencies_found == inconsistencies@.len(),
        r.resolutions_applied == inconsistencies@.len(),
{
    let mut replayed: usize = 0;
    let mut k: usize = 0;
    while k < replay_ok.len()
        invariant
            k <= replay_ok@.len(),
            replayed == succeeded_count(replay_ok@.take(k as int)),
            replayed <= k,
        decreases replay_ok@.len() - k,
    {
        assert(replay_ok@.take(k + 1).drop_last() =~= replay_ok@.take(k as int));
        if replay_ok[k] {
            replayed = replayed + 1;
        }
        k = k + 1;
    }
    assert(replay_ok@.take(replay_ok@.len() as int) =~= replay_ok@);
    let mut applied: usize = 0;
    let mut i: usize = 0;
    while i < inconsistencies.len()
        invariant
            i <= inconsistencies@.len(),
            applied == i,
        decreases inconsistencies@.len() - i,
    {
        applied = applied + 1;
        i = i + 1;
    }
    RecoveryResult {
        checkpoint_id,
        restored_anchors,
        events_replayed: replayed,
        inconsistencies_found: inconsistencies.len(),
        resolutions_applied: applied,
    }
}

/// The events an anchored restore counts as replayed are never more than the
/// events after the anchor's event.
pub proof fn lemma_replayed_within_tail(anchors: Seq<ContextAnchor>, ids: Seq<u128>, times: Seq<i64>, replay_ok: Seq<bool>)
    requires
        replay_ok.len() == anchor_tail_spec(anchors, ids, times).len(),
    ensures
        succeeded_count(replay_ok) <= anchor_tail_spec(anchors, ids, times).len(),
{
    lemma_succeeded_count_bounded(replay_ok);
}

/// The child delegations that a checkpoint lists and that parse as UUIDs, in order.
pub open spec fn parsed_children(ids: Seq<Seq<char>>) -> Seq<u128>
    decreases ids.len(),
{
    if ids.len() == 0 {
        seq![]
    } else {
        parsed_children(ids.drop_last()) + match parsed_uuid(ids.last()) {
            Some(u) => seq![u],
            None => seq![],
        }
    }
}

/// Reads the ids of a checkpoint's child delegations, skipping those that do not parse.
pub fn child_delegation_ids(ids: &[String]) -> (r: Vec<u128>)
    ensures
        r@ == parsed_children(ids@.map_values(|s: String| s@)),
{
    let ghost views = ids@.map_values(|s: String| s@);
    let mut r: Vec<u128> = Vec::new();
    let mut i: usize = 0;
    while i < ids.len()
        invariant
            i <= ids@.len(),
            views == ids@.map_values(|s: String| s@),
            r@ == parsed_children(views.take(i as int)),
        decreases ids@.len() - i,
    {
        assert(views.take(i + 1).drop_last() =~= views.take(i as int));
        assert(views.take(i + 1).last() == ids@[i as int]@);
        match parse_uuid(ids[i].as_str()) {
            Some(u) => { r.push(u); },
            None => {},
        }
        i = i + 1;
    }
    assert(views.take(ids@.len() as int) =~= views);
    r
}

/// The number of looked-up children that failed.
pub open spec fn failed_children(statuses: Seq<Option<AgentInstanceStatus>>) -> nat
    decreases statuses.len(),
{
    if statuses.len() == 0 {
        0
    } else {
        failed_children(statuses.drop_last()) + if statuses.last() == Some(AgentInstanceStatus::Failed) { 1nat } else { 0nat }
    }
}

/// Reconciliation after a restore: each child delegation found failed marks the
/// parent ready for re-delegation. Returns how many times the parent is set ready.
pub fn redelegations(child_statuses: &[Option<AgentInstanceStatus>]) -> (n: usize)
    ensures
        n == failed_children(child_statuses@),
{
    let mut n: usize = 0;
    let mut i: usize = 0;
    while i < child_statuses.len()
        invariant
            i <= child_statuses@.len(),
            n == failed_children(child_statuses@.take(i as int)),
            n <= i,
        decreases child_statuses@.len() - i,
    {
        assert(child_statuses@.take(i + 1).drop_last() =~= child_statuses@.take(i as int));
        match child_statuses[i] {
            Some(AgentInstanceStatus::Failed) => { n = n + 1; },
            _ => {},
        }
        i = i + 1;
    }
    assert(child_statuses@.take(child_statuses@.len() as int) =~= child_statuses@);
    n
}

/// Why a recovery request failed.
#[derive(Debug)]
pub enum RecoveryError {
    CheckpointNotFound(u128),
    InstanceNotFound(u128),
    CheckpointOfOtherInstance { checkpoint_id: u128, instance_id: u128 },
    MemberRepositoryNotConfigured,
    TaskRepositoryNotConfigured,
    TaskNotFound(u128),
}

impl RecoveryError {
    /// The error's message.
    pub fn message(&self) -> (m: String)
        ensures
            m@ == match *self {
                RecoveryError::CheckpointNotFound(id) => "Checkpoint not found: "@ + uuid_string(id),
                RecoveryError::InstanceNotFound(id) => "Agent instance not found: "@ + uuid_string(id),
                RecoveryError::CheckpointOfOtherInstance { checkpoint_id, instance_id } =>
                    "Checkpoint "@ + uuid_string(checkpoint_id) + " does not belong to instance "@ + uuid_string(instance_id),
                RecoveryError::MemberRepositoryNotConfigured => "Team member repository not configured"@,
                RecoveryError::TaskRepositoryNotConfigured => "Team task repository not configured"@,
                RecoveryError::TaskNotFound(id) => "Task not found: "@ + uuid_string(id),
            },
    {
        match self {
            RecoveryError::CheckpointNotFound(id) => {
                let mut m = String::from_str("Checkpoint not found: ");
                let t = uuid_text(*id);
                m.append(t.as_str());
                m
            },
            RecoveryError::InstanceNotFound(id) => {
                let mut m = String::from_str("Agent instance not found: ");
                let t = uuid_text(*id);
                m.append(t.as_str());
                m
            },
            RecoveryError::CheckpointOfOtherInstance { checkpoint_id, instance_id } => {
                let mut m = String::from_str("Checkpoint ");
                let a = uuid_text(*checkpoint_id);
                m.append(a.as_str());
                m.append(" does not belong to instance ");
                let b = uuid_text(*instance_id);
                m.append(b.as_str());
                m
            },
            RecoveryError::MemberRepositoryNotConfigured => String::from_str("Team member repository not configured"),
            RecoveryError::TaskRepositoryNotConfigured => String::from_str("Team task repository not configured"),
            RecoveryError::TaskNotFound(id) => {
                let mut m = String::from_str("Task not found: ");
                let t = uuid_text(*id);
                m.append(t.as_str());
                m
            },
        }
    }
}

/// Time travel branches from a checkpoint only of the instance it belongs to.
pub fn check_branch_source(checkpoint_id: u128, checkpoint_instance_id: u128, instance_id: u128) -> (r: Result<(), RecoveryError>)
    ensures
        checkpoint_instance_id == instance_id <==> r is Ok,
        r matches Err(e) ==> e == (RecoveryError::CheckpointOfOtherInstance { checkpoint_id, instance_id }),
{
    if checkpoint_instance_id != instance_id {
        Err(RecoveryError::CheckpointOfOtherInstance { checkpoint_id, instance_id })
    } else {
        Ok(())
    }
}

/// Restores agent instances from checkpoints and plans team recovery. It holds the
/// repositories it reads and writes (handles of type `R`) and the event replay
/// registry (custom handlers of type `H`).
pub struct RecoveryService<R, H> {
    agent_instance_repo: R,
    checkpoint_repo: R,
    event_repo: R,
    event_registry: EventReplayRegistry<H>,
    repo_v1: Option<R>,
    team_member_repo: Option<R>,
    team_task_repo: Option<R>,
}

impl<R, H> RecoveryService<R, H> {
    pub closed spec fn instance_repo_spec(&self) -> R {
        self.agent_instance_repo
    }

    pub closed spec fn checkpoint_repo_spec(&self) -> R {
        self.checkpoint_repo
    }

    pub closed spec fn event_repo_spec(&self) -> R {
        self.event_repo
    }

    pub closed spec fn registrations(&self) -> Seq<(Seq<char>, ReplayHandler<H>)> {
        self.event_registry@
    }

    pub closed spec fn repo_v1_spec(&self) -> Option<R> {
        self.repo_v1
    }

    pub closed spec fn team_member_repo_spec(&self) -> Option<R> {
        self.team_member_repo
    }

    pub closed spec fn team_task_repo_spec(&self) -> Option<R> {
        self.team_task_repo
    }

    /// A service with the default replay handlers and without the memory or team
    /// repositories.
    pub fn new(agent_instance_repo: R, checkpoint_repo: R, event_repo: R) -> (s: Self)
        ensures
            s.instance_repo_spec() == agent_instance_repo,
            s.checkpoint_repo_spec() == checkpoint_repo,
            s.event_repo_spec() == event_repo,
            s.registrations() == default_registrations::<H>(),
            s.repo_v1_spec().is_none(),
            s.team_member_repo_spec().is_none(),
            s.team_task_repo_spec().is_none(),
    {
        RecoveryService {
            agent_instance_repo,
            checkpoint_repo,
            event_repo,
            event_registry: EventReplayRegistry::new(),
            repo_v1: None,
            team_member_repo: None,
            team_task_repo: None,
        }
    }

    /// The same service with the memory repository, which anchored restores use.
    pub fn with_repo_v1(self, repo_v1: R) -> (s: Self)
        ensures
            s.instance_repo_spec() == self.instance_repo_spec(),
            s.checkpoint_repo_spec() == self.checkpoint_repo_spec(),
            s.event_repo_spec() == self.event_repo_spec(),
            s.registrations() == self.registrations(),
            s.repo_v1_spec() == Some(repo_v1),
            s.team_member_repo_spec() == self.team_member_repo_spec(),
            s.team_task_repo_spec() == self.team_task_repo_spec(),
    {
        RecoveryService { repo_v1: Some(repo_v1), ..self }
    }

    /// The same service with the team member and team task repositories.
    pub fn with_team_repos(self, team_member_repo: R, team_task_repo: R) -> (s: Self)
        ensures
            s.instance_repo_spec() == self.instance_repo_spec(),
            s.checkpoint_repo_spec() == self.checkpoint_repo_spec(),
            s.event_repo_spec() == self.event_repo_spec(),
            s.registrations() == self.registrations(),
            s.repo_v1_spec() == self.repo_v1_spec(),
            s.team_member_repo_spec() == Some(team_member_repo),
            s.team_task_repo_spec() == Some(team_task_repo),
    {
        RecoveryService { team_member_repo: Some(team_member_repo), team_task_repo: Some(team_task_repo), ..self }
    }

    /// Whether anchored restores can look anchors up.
    pub fn has_memory_repo(&self) -> (b: bool)
        ensures
            b == self.repo_v1_spec().is_some(),
    {
        self.repo_v1.is_some()
    }

    /// The team member repository, which team assessments need.
    pub fn member_repo(&self) -> (r: Result<&R, RecoveryError>)
        ensures
            self.team_member_repo_spec() is Some <==> r is Ok,
            r matches Ok(m) ==> Some(*m) == self.team_member_repo_spec(),
            r matches Err(e) ==> e == RecoveryError::MemberRepositoryNotConfigured,
    {
        match &self.team_member_repo {
            Some(m) => Ok(m),
            None => Err(RecoveryError::MemberRepositoryNotConfigured),
        }
    }

    /// The team task repository, which team task recovery needs.
    pub fn task_repo(&self) -> (r: Result<&R, RecoveryError>)
        ensures
            self.team_task_repo_spec() is Some <==> r is Ok,
            r matches Ok(m) ==> Some(*m) == self.team_task_repo_spec(),
            r matches Err(e) ==> e == RecoveryError::TaskRepositoryNotConfigured,
    {
        match &self.team_task_repo {
            Some(m) => Ok(m),
            None => Err(RecoveryError::TaskRepositoryNotConfigured),
        }
    }

    /// The replay registry.
    pub fn event_registry(&self) -> (r: &EventReplayRegistry<H>)
        ensures
            r@ == self.registrations(),
    {
        &self.event_registry
    }
}

} // verus!
