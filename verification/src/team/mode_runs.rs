//! Route, broadcast, coordinate and tasks runs as state machines: the caller reports what
//! happened (the run started, a delegation was created, a delegation's wait ended)
//! and the run says what to do next (record an outcome, record decisions, create a
//! delegation, wait for one, or finish with the mode's result).

use vstd::prelude::*;
use crate::team::modes::{
    broadcast_decision, broadcast_decision_text, broadcast_result, broadcast_summary_text,
    completed_count, coordinate_final_decision, coordinate_final_text, coordinate_result,
    coordinate_round_decision, coordinate_round_text, coordinate_start_decision, coordinate_start_text,
    coordinate_summary_text, failed_count, follow_up_view, handle_outcome, lemma_tally_accounts_for_every_outcome,
    min_nat, no_candidates_result, no_candidates_summary, outcome_follow_up, outcome_kind, outcome_status,
    tally_of, DelegationWaitOutcome, ModeExecutionResult, ModeKind, ModeTally, OutcomeKind, OutcomeStep,
    spec_decompose, tasks_final_decision, tasks_final_text, tasks_item_decision, tasks_item_text, tasks_result,
    tasks_start_decision, tasks_start_text, tasks_summary_text, TasksModeHandler,
    route_decision, route_decision_text, route_result, route_summary_text,
};

verus! {

/// What happened since a run's last step.
pub enum ModeEvent {
    /// The mode was asked to run.
    Start,
    /// The delegation asked for was created, with this id.
    Created(u128),
    /// Waiting for the delegation asked for ended this way.
    Outcome(DelegationWaitOutcome),
}

/// An event as plain values.
pub enum ModeEventView {
    Start,
    Created(u128),
    Outcome(OutcomeKind),
}

pub open spec fn event_view(e: ModeEvent) -> ModeEventView {
    match e {
        ModeEvent::Start => ModeEventView::Start,
        ModeEvent::Created(id) => ModeEventView::Created(id),
        ModeEvent::Outcome(o) => ModeEventView::Outcome(outcome_kind(o)),
    }
}

/// What the caller does next.
pub enum ModeMove {
    /// Activate the candidate, create its delegation (recording it as pending and
    /// emitting its creation) and report the delegation's id. A coordinate round
    /// carries its number (from one) and whether the previous round completed; a
    /// subtask carries what its delegation's payload holds.
    Create { member_index: usize, coordinate: Option<(usize, bool)>, subtask: Option<SubtaskPayload> },
    /// Wait for the delegation of this candidate and report how the wait ended.
    Wait { member_index: usize, delegation_id: u128 },
    /// The mode is done with this result.
    Finish(ModeExecutionResult),
}

/// What the delegation of one subtask carries besides the member and the task's
/// instructions: the subtask's goal, its index (from zero), how many subtasks are
/// delegated, the parent task, and that it came from a decomposition.
pub struct SubtaskPayload {
    pub goal: String,
    pub subtask_index: usize,
    pub total_subtasks: usize,
    pub parent_task_id: u128,
    pub decomposed: bool,
}

pub open spec fn payload_view(p: SubtaskPayload) -> (Seq<char>, nat, nat, u128, bool) {
    (p.goal@, p.subtask_index as nat, p.total_subtasks as nat, p.parent_task_id, p.decomposed)
}

/// The payload of subtask `index` of `total`, under `parent_task_id`.
pub fn subtask_payload(goal: &str, index: usize, total: usize, parent_task_id: u128) -> (p: SubtaskPayload)
    ensures
        payload_view(p) == (goal@, index as nat, total as nat, parent_task_id, true),
{
    SubtaskPayload { goal: goal.to_string(), subtask_index: index, total_subtasks: total, parent_task_id, decomposed: true }
}

/// A move as plain values.
pub enum MoveView {
    Create { member_index: nat, coordinate: Option<(nat, bool)>, subtask: Option<(Seq<char>, nat, nat, u128, bool)> },
    Wait { member_index: nat, delegation_id: u128 },
    Finish { success: bool, delegation_ids: Seq<u128> },
}

pub open spec fn move_view(m: ModeMove) -> MoveView {
    match m {
        ModeMove::Create { member_index, coordinate, subtask } => MoveView::Create {
            member_index: member_index as nat,
            coordinate: match coordinate {
                Some((r, p)) => Some((r as nat, p)),
                None => None,
            },
            subtask: match subtask {
                Some(t) => Some(payload_view(t)),
                None => None,
            },
        },
        ModeMove::Wait { member_index, delegation_id } => MoveView::Wait { member_index: member_index as nat, delegation_id },
        ModeMove::Finish(r) => MoveView::Finish { success: r.success, delegation_ids: r.delegation_ids@ },
    }
}

/// One step's instructions, in order: record the outcome just reported (for that
/// candidate and delegation), record the decisions, then make the move.
pub struct ModeAction {
    pub record: Option<(usize, u128, OutcomeStep)>,
    pub decisions: Vec<String>,
    pub next: ModeMove,
}

/// What recording an outcome in mode `k` means: the status, the follow-up event,
/// whether it failed and whether the mode stops.
pub open spec fn records_outcome(st: OutcomeStep, k: ModeKind, o: DelegationWaitOutcome) -> bool {
    &&& st.status@ == outcome_status(k, outcome_kind(o))
    &&& follow_up_view(st.follow_up) == outcome_follow_up(k, o)
    &&& st.failed == (outcome_kind(o) != OutcomeKind::Completed)
    &&& st.stop == (k == ModeKind::Coordinate && outcome_kind(o) != OutcomeKind::Completed)
}

fn copy_ids(v: &Vec<u128>) -> (r: Vec<u128>)
    ensures
        r@ == v@,
{
    let mut r: Vec<u128> = Vec::new();
    let mut i: usize = 0;
    while i < v.len()
        invariant
            i <= v@.len(),
            r@ == v@.take(i as int),
        decreases v@.len() - i,
    {
        assert(v@.take(i + 1) =~= v@.take(i as int).push(v@[i as int]));
        r.push(v[i]);
        i = i + 1;
    }
    assert(v@.take(v@.len() as int) =~= v@);
    r
}

/// A broadcast run as plain values: the number of candidates, whether it started
/// and finished, the delegations created and the outcomes recorded, in order.
pub struct BroadcastState {
    pub candidates: nat,
    pub started: bool,
    pub finished: bool,
    pub ids: Seq<u128>,
    pub outcomes: Seq<OutcomeKind>,
}

/// Which events a broadcast run takes in a state: the start once; then one
/// creation per candidate; then one outcome per delegation.
pub open spec fn broadcast_accepts(s: BroadcastState, e: ModeEventView) -> bool {
    match e {
        ModeEventView::Start => !s.started,
        ModeEventView::Created(_) => s.started && !s.finished && s.ids.len() < s.candidates,
        ModeEventView::Outcome(_) => s.started && !s.finished && s.ids.len() == s.candidates && s.outcomes.len() < s.candidates,
    }
}

/// A broadcast step: with no candidates it finishes at once, unsuccessfully and
/// with no delegation; otherwise it creates a delegation for every candidate in
/// turn, and only then waits for each in the same order; after the last outcome it
/// finishes, successfully when every delegation completed.
pub open spec fn broadcast_step(s: BroadcastState, e: ModeEventView) -> (BroadcastState, MoveView) {
    match e {
        ModeEventView::Start => if s.candidates == 0 {
            (BroadcastState { started: true, finished: true, ..s }, MoveView::Finish { success: false, delegation_ids: seq![] })
        } else {
            (BroadcastState { started: true, ..s }, MoveView::Create { member_index: 0, coordinate: None, subtask: None })
        },
        ModeEventView::Created(id) => {
            let ids = s.ids.push(id);
            if ids.len() < s.candidates {
                (BroadcastState { ids, ..s }, MoveView::Create { member_index: ids.len(), coordinate: None, subtask: None })
            } else {
                (BroadcastState { ids, ..s }, MoveView::Wait { member_index: 0, delegation_id: ids[0] })
            }
        },
        ModeEventView::Outcome(k) => {
            let os = s.outcomes.push(k);
            if os.len() < s.candidates {
                (BroadcastState { outcomes: os, ..s }, MoveView::Wait { member_index: os.len(), delegation_id: s.ids[os.len() as int] })
            } else {
                (
                    BroadcastState { outcomes: os, finished: true, ..s },
                    MoveView::Finish { success: failed_count(os) == 0, delegation_ids: s.ids },
                )
            }
        },
    }
}

/// A broadcast of a team task, step by step.
pub struct BroadcastRun {
    candidates: usize,
    goal: String,
    started: bool,
    finished: bool,
    delegation_ids: Vec<u128>,
    outcomes: Vec<OutcomeKind>,
    tally: ModeTally,
}

impl View for BroadcastRun {
    type V = BroadcastState;

    closed spec fn view(&self) -> BroadcastState {
        BroadcastState {
            candidates: self.candidates as nat,
            started: self.started,
            finished: self.finished,
            ids: self.delegation_ids@,
            outcomes: self.outcomes@,
        }
    }
}

/// A broadcast state that a run can be in.
pub open spec fn broadcast_wf(s: BroadcastState) -> bool {
    &&& s.ids.len() <= s.candidates
    &&& s.outcomes.len() <= s.ids.len()
    &&& s.outcomes.len() > 0 ==> s.ids.len() == s.candidates
    &&& !s.started ==> s.ids.len() == 0
    &&& s.finished == (s.started && s.outcomes.len() == s.candidates)
}

impl BroadcastRun {
    pub closed spec fn goal(&self) -> Seq<char> {
        self.goal@
    }

    pub closed spec fn wf(&self) -> bool {
        &&& broadcast_wf(self@)
        &&& (self.tally.delegations as nat, self.tally.accepted as nat, self.tally.failed as nat) == tally_of(self.outcomes@)
    }

    /// A run for `candidates` candidates and the task's goal, not started yet.
    pub fn new(candidates: usize, goal: &str) -> (r: BroadcastRun)
        ensures
            r.wf(),
            r@ == (BroadcastState { candidates: candidates as nat, started: false, finished: false, ids: seq![], outcomes: seq![] }),
            r.goal() == goal@,
    {
        let r = BroadcastRun {
            candidates,
            goal: goal.to_string(),
            started: false,
            finished: false,
            delegation_ids: Vec::new(),
            outcomes: Vec::new(),
            tally: ModeTally::new(),
        };
        assert(r@.ids =~= Seq::<u128>::empty());
        assert(r@.outcomes =~= Seq::<OutcomeKind>::empty());
        r
    }

    /// Whether the run takes `e` now.
    pub fn accepts(&self, e: &ModeEvent) -> (b: bool)
        requires
            self.wf(),
        ensures
            b == broadcast_accepts(self@, event_view(*e)),
    {
        match e {
            ModeEvent::Start => !self.started,
            ModeEvent::Created(_) => self.started && !self.finished && self.delegation_ids.len() < self.candidates,
            ModeEvent::Outcome(_) => self.started && !self.finished && self.delegation_ids.len() == self.candidates
                && self.outcomes.len() < self.candidates,
        }
    }

    /// One step: the next state and what to do. An outcome is recorded with the
    /// broadcast's statuses and events; the last one is followed by the closing
    /// decision and the result, whose summary counts the accepted and failed
    /// delegations.
    pub fn step(self, e: ModeEvent) -> (r: (BroadcastRun, ModeAction))
        requires
            self.wf(),
            broadcast_accepts(self@, event_view(e)),
        ensures
            r.0.wf(),
            r.0.goal() == self.goal(),
            (r.0@, move_view(r.1.next)) == broadcast_step(self@, event_view(e)),
            r.1.record is Some <==> e is Outcome,
            e matches ModeEvent::Outcome(o) ==> (r.1.record matches Some((m, d, st))
                && m == self@.outcomes.len() && d == self@.ids[m as int] && records_outcome(st, ModeKind::Broadcast, o)),
            r.1.next matches ModeMove::Finish(res) ==> res.published_artifact_ids@.len() == 0,
            r.1.next matches ModeMove::Finish(res) ==> (if self@.candidates == 0 {
                res.summary@ == no_candidates_summary(ModeKind::Broadcast) && r.1.decisions@.len() == 0
            } else {
                let os = r.0@.outcomes;
                &&& res.summary@ == broadcast_summary_text(completed_count(os), os.len(), failed_count(os))
                &&& r.1.decisions@.len() == 1
                &&& r.1.decisions@[0]@ == broadcast_decision_text(completed_count(os), os.len(), failed_count(os), self.goal())
            }),
            !(r.1.next is Finish) ==> r.1.decisions@.len() == 0,
    {
        let mut run = self;
        let ghost old_outcomes = run.outcomes@;
        proof {
            lemma_tally_accounts_for_every_outcome(old_outcomes);
        }
        match e {
            ModeEvent::Start => {
                run.started = true;
                if run.candidates == 0 {
                    run.finished = true;
                    let res = no_candidates_result(ModeKind::Broadcast);
                    assert(res.delegation_ids@ =~= Seq::<u128>::empty());
                    (run, ModeAction { record: None, decisions: Vec::new(), next: ModeMove::Finish(res) })
                } else {
                    (run, ModeAction { record: None, decisions: Vec::new(), next: ModeMove::Create { member_index: 0, coordinate: None, subtask: None } })
                }
            },
            ModeEvent::Created(id) => {
                run.delegation_ids.push(id);
                if run.delegation_ids.len() < run.candidates {
                    let m = run.delegation_ids.len();
                    (run, ModeAction { record: None, decisions: Vec::new(), next: ModeMove::Create { member_index: m, coordinate: None, subtask: None } })
                } else {
                    let first = run.delegation_ids[0];
                    (run, ModeAction { record: None, decisions: Vec::new(), next: ModeMove::Wait { member_index: 0, delegation_id: first } })
                }
            },
            ModeEvent::Outcome(o) => {
                let m = run.outcomes.len();
                let d = run.delegation_ids[m];
                let st = handle_outcome(ModeKind::Broadcast, &o);
                let k = match o {
                    DelegationWaitOutcome::Completed => OutcomeKind::Completed,
                    DelegationWaitOutcome::Failed(_) => OutcomeKind::Failed,
                    DelegationWaitOutcome::Rejected(_) => OutcomeKind::Rejected,
                    DelegationWaitOutcome::TimeoutPartial(_) => OutcomeKind::TimeoutPartial,
                    DelegationWaitOutcome::Timeout => OutcomeKind::Timeout,
                };
                run.tally.record(k);
                run.outcomes.push(k);
                proof {
                    assert(run.outcomes@.drop_last() =~= old_outcomes);
                }
                let record = Some((m, d, st));
                if run.outcomes.len() < run.candidates {
                    let next_id = run.delegation_ids[m + 1];
                    (run, ModeAction { record, decisions: Vec::new(), next: ModeMove::Wait { member_index: m + 1, delegation_id: next_id } })
                } else {
                    run.finished = true;
                    proof {
                        lemma_tally_accounts_for_every_outcome(run.outcomes@);
                    }
                    let mut decisions: Vec<String> = Vec::new();
                    decisions.push(broadcast_decision(&run.tally, run.goal.as_str()));
                    let res = broadcast_result(&run.tally, copy_ids(&run.delegation_ids));
                    (run, ModeAction { record, decisions, next: ModeMove::Finish(res) })
                }
            },
        }
    }
}

/// A coordinate run as plain values: the number of candidates and of rounds,
/// whether it started and finished, the delegations created and the outcomes
/// recorded, in order.
pub struct CoordinateState {
    pub candidates: nat,
    pub rounds: nat,
    pub started: bool,
    pub finished: bool,
    pub ids: Seq<u128>,
    pub outcomes: Seq<OutcomeKind>,
}

/// Which events a coordinate run takes in a state: the start once; then, round by
/// round, the creation of the round's delegation and the outcome of waiting for it.
pub open spec fn coordinate_accepts(s: CoordinateState, e: ModeEventView) -> bool {
    match e {
        ModeEventView::Start => !s.started,
        ModeEventView::Created(_) => s.started && !s.finished && s.ids.len() == s.outcomes.len(),
        ModeEventView::Outcome(_) => s.started && !s.finished && s.ids.len() == s.outcomes.len() + 1,
    }
}

/// A coordinate step: with no candidates it finishes at once, unsuccessfully and
/// with no delegation. Otherwise the rounds run one at a time: round `k` (from one)
/// creates a delegation for candidate `k - 1`, noting whether the previous round
/// completed (it did in every round after the first that is reached), and then
/// waits for it. The run finishes after the last round or at the first outcome
/// other than completion, successfully when every round completed.
pub open spec fn coordinate_step(s: CoordinateState, e: ModeEventView) -> (CoordinateState, MoveView) {
    match e {
        ModeEventView::Start => if s.candidates == 0 {
            (CoordinateState { started: true, finished: true, ..s }, MoveView::Finish { success: false, delegation_ids: seq![] })
        } else if s.rounds == 0 {
            (CoordinateState { started: true, finished: true, ..s }, MoveView::Finish { success: true, delegation_ids: seq![] })
        } else {
            (CoordinateState { started: true, ..s }, MoveView::Create { member_index: 0, coordinate: Some((1, false)), subtask: None })
        },
        ModeEventView::Created(id) => (
            CoordinateState { ids: s.ids.push(id), ..s },
            MoveView::Wait { member_index: s.ids.len(), delegation_id: id },
        ),
        ModeEventView::Outcome(k) => {
            let os = s.outcomes.push(k);
            if k != OutcomeKind::Completed || os.len() == s.rounds {
                (
                    CoordinateState { outcomes: os, finished: true, ..s },
                    MoveView::Finish { success: k == OutcomeKind::Completed, delegation_ids: s.ids },
                )
            } else {
                (CoordinateState { outcomes: os, ..s }, MoveView::Create { member_index: os.len(), coordinate: Some((os.len() + 1, true)), subtask: None })
            }
        },
    }
}

/// A coordinate state that a run can be in: at most one delegation per round, each
/// round's outcome before the next round, every outcome but the last a completion.
pub open spec fn coordinate_wf(s: CoordinateState) -> bool {
    &&& s.rounds <= s.candidates
    &&& s.ids.len() <= s.rounds
    &&& s.outcomes.len() <= s.ids.len() <= s.outcomes.len() + 1
    &&& forall|i: int| 0 <= i < s.outcomes.len() - 1 ==> s.outcomes[i] == OutcomeKind::Completed
    &&& s.ids.len() == s.outcomes.len() + 1 ==> forall|i: int| 0 <= i < s.outcomes.len() ==> s.outcomes[i] == OutcomeKind::Completed
    &&& !s.started ==> s.ids.len() == 0
    &&& s.finished == (s.started && (s.candidates == 0 || s.rounds == 0 || (s.outcomes.len() == s.ids.len() && s.outcomes.len() > 0
        && (s.outcomes.len() == s.rounds || s.outcomes.last() != OutcomeKind::Completed))))
}

/// A coordinated run of a team task, step by step.
pub struct CoordinateRun {
    roles: Vec<String>,
    goal: String,
    rounds: usize,
    started: bool,
    finished: bool,
    delegation_ids: Vec<u128>,
    outcomes: Vec<OutcomeKind>,
}

impl View for CoordinateRun {
    type V = CoordinateState;

    closed spec fn view(&self) -> CoordinateState {
        CoordinateState {
            candidates: self.roles@.len(),
            rounds: self.rounds as nat,
            started: self.started,
            finished: self.finished,
            ids: self.delegation_ids@,
            outcomes: self.outcomes@,
        }
    }
}

impl CoordinateRun {
    pub closed spec fn goal(&self) -> Seq<char> {
        self.goal@
    }

    /// The candidates' roles, in order.
    pub closed spec fn roles(&self) -> Seq<Seq<char>> {
        self.roles@.map_values(|r: String| r@)
    }

    pub closed spec fn wf(&self) -> bool {
        coordinate_wf(self@)
    }

    /// A run over the candidates with these roles, with at most `max_rounds` rounds,
    /// not started yet.
    pub fn new(roles: Vec<String>, goal: &str, max_rounds: usize) -> (r: CoordinateRun)
        ensures
            r.wf(),
            r@ == (CoordinateState {
                candidates: roles@.len(),
                rounds: min_nat(roles@.len(), max_rounds as nat),
                started: false,
                finished: false,
                ids: seq![],
                outcomes: seq![],
            }),
            r.goal() == goal@,
            r.roles() == roles@.map_values(|s: String| s@),
    {
        let rounds = if roles.len() <= max_rounds { roles.len() } else { max_rounds };
        let r = CoordinateRun {
            roles,
            goal: goal.to_string(),
            rounds,
            started: false,
            finished: false,
            delegation_ids: Vec::new(),
            outcomes: Vec::new(),
        };
        assert(r@.ids =~= Seq::<u128>::empty());
        assert(r@.outcomes =~= Seq::<OutcomeKind>::empty());
        r
    }

    /// Whether the run takes `e` now.
    pub fn accepts(&self, e: &ModeEvent) -> (b: bool)
        requires
            self.wf(),
        ensures
            b == coordinate_accepts(self@, event_view(*e)),
    {
        match e {
            ModeEvent::Start => !self.started,
            ModeEvent::Created(_) => self.started && !self.finished && self.delegation_ids.len() == self.outcomes.len(),
            ModeEvent::Outcome(_) => self.started && !self.finished && self.delegation_ids.len() == self.outcomes.len() + 1,
        }
    }

    /// One step: the next state and what to do. The start records the opening
    /// decision; each round opens with its decision; an outcome is recorded with
    /// coordinate's statuses and events; the end records the closing decision and
    /// gives the result, whose summary reports the rounds and the failed ones.
    pub fn step(self, e: ModeEvent) -> (r: (CoordinateRun, ModeAction))
        requires
            self.wf(),
            coordinate_accepts(self@, event_view(e)),
        ensures
            r.0.wf(),
            r.0.goal() == self.goal(),
            r.0.roles() == self.roles(),
            (r.0@, move_view(r.1.next)) == coordinate_step(self@, event_view(e)),
            r.1.record is Some <==> e is Outcome,
            e matches ModeEvent::Outcome(o) ==> (r.1.record matches Some((m, d, st))
                && m == self@.outcomes.len() && d == self@.ids[m as int] && records_outcome(st, ModeKind::Coordinate, o)),
            r.1.next matches ModeMove::Create { member_index, .. } ==> r.1.decisions@.len() >= 1
                && r.1.decisions@.last()@ == coordinate_round_text(member_index as nat + 1, self.roles()[member_index as int]),
            (e is Start && self@.candidates > 0) ==> r.1.decisions@.len() >= 1
                && r.1.decisions@[0]@ == coordinate_start_text(self.goal(), self@.rounds),
            r.1.next matches ModeMove::Finish(res) ==> res.published_artifact_ids@.len() == 0,
            r.1.next matches ModeMove::Finish(res) ==> (if self@.candidates == 0 {
                res.summary@ == no_candidates_summary(ModeKind::Coordinate) && r.1.decisions@.len() == 0
            } else {
                let failed = failed_count(r.0@.outcomes);
                &&& res.summary@ == coordinate_summary_text(self@.rounds, failed)
                &&& r.1.decisions@.len() >= 1
                &&& r.1.decisions@.last()@ == coordinate_final_text(self@.rounds, failed, self.goal())
            }),
            r.1.decisions@.len() <= 2,
            (e is Created) ==> r.1.decisions@.len() == 0,
    {
        let mut run = self;
        let ghost old_outcomes = run.outcomes@;
        match e {
            ModeEvent::Start => {
                run.started = true;
                if run.roles.len() == 0 {
                    run.finished = true;
                    let res = no_candidates_result(ModeKind::Coordinate);
                    assert(res.delegation_ids@ =~= Seq::<u128>::empty());
                    return (run, ModeAction { record: None, decisions: Vec::new(), next: ModeMove::Finish(res) });
                }
                let mut decisions: Vec<String> = Vec::new();
                decisions.push(coordinate_start_decision(run.goal.as_str(), run.rounds));
                if run.rounds == 0 {
                    run.finished = true;
                    assert(failed_count(run.outcomes@) == 0);
                    decisions.push(coordinate_final_decision(0, 0, run.goal.as_str()));
                    let res = coordinate_result(0, 0, Vec::new());
                    assert(res.delegation_ids@ =~= Seq::<u128>::empty());
                    (run, ModeAction { record: None, decisions, next: ModeMove::Finish(res) })
                } else {
                    decisions.push(coordinate_round_decision(1, run.roles[0].as_str()));
                    (run, ModeAction { record: None, decisions, next: ModeMove::Create { member_index: 0, coordinate: Some((1, false)), subtask: None } })
                }
            },
            ModeEvent::Created(id) => {
                let m = run.delegation_ids.len();
                run.delegation_ids.push(id);
                (run, ModeAction { record: None, decisions: Vec::new(), next: ModeMove::Wait { member_index: m, delegation_id: id } })
            },
            ModeEvent::Outcome(o) => {
                let m = run.outcomes.len();
                let d = run.delegation_ids[m];
                let st = handle_outcome(ModeKind::Coordinate, &o);
                let k = match o {
                    DelegationWaitOutcome::Completed => OutcomeKind::Completed,
                    DelegationWaitOutcome::Failed(_) => OutcomeKind::Failed,
                    DelegationWaitOutcome::Rejected(_) => OutcomeKind::Rejected,
                    DelegationWaitOutcome::TimeoutPartial(_) => OutcomeKind::TimeoutPartial,
                    DelegationWaitOutcome::Timeout => OutcomeKind::Timeout,
                };
                run.outcomes.push(k);
                proof {
                    assert(run.outcomes@.drop_last() =~= old_outcomes);
                    lemma_failed_count_of_completed_prefix(run.outcomes@);
                }
                let record = Some((m, d, st));
                let mut decisions: Vec<String> = Vec::new();
                if k != OutcomeKind::Completed || run.outcomes.len() == run.rounds {
                    run.finished = true;
                    let failed: usize = if k == OutcomeKind::Completed { 0 } else { 1 };
                    decisions.push(coordinate_final_decision(run.rounds, failed, run.goal.as_str()));
                    let res = coordinate_result(run.rounds, failed, copy_ids(&run.delegation_ids));
                    (run, ModeAction { record, decisions, next: ModeMove::Finish(res) })
                } else {
                    let next = m + 1;
                    decisions.push(coordinate_round_decision(next + 1, run.roles[next].as_str()));
                    (run, ModeAction { record, decisions, next: ModeMove::Create { member_index: next, coordinate: Some((next + 1, true)), subtask: None } })
                }
            },
        }
    }
}

/// Outcomes that are completions but for the last one have one failure at most:
/// one exactly when the last is not a completion.
proof fn lemma_failed_count_of_completed_prefix(os: Seq<OutcomeKind>)
    requires
        os.len() > 0,
        forall|i: int| 0 <= i < os.len() - 1 ==> os[i] == OutcomeKind::Completed,
    ensures
        failed_count(os) == (if os.last() == OutcomeKind::Completed { 0nat } else { 1nat }),
{
    let pre = os.drop_last();
    lemma_tally_accounts_for_every_outcome(pre);
    assert forall|i: int| 0 <= i < pre.len() implies pre[i] == OutcomeKind::Completed by {
        assert(pre[i] == os[i]);
    }
}

/// The moves a broadcast run makes for a sequence of events, up to the first event
/// it does not take.
pub open spec fn broadcast_moves(s: BroadcastState, es: Seq<ModeEventView>) -> Seq<MoveView>
    decreases es.len(),
{
    if es.len() == 0 || !broadcast_accepts(s, es[0]) {
        seq![]
    } else {
        seq![broadcast_step(s, es[0]).1] + broadcast_moves(broadcast_step(s, es[0]).0, es.drop_first())
    }
}

/// The move a broadcast over `n` candidates makes at position `g` of its run: the
/// `n` creations first, candidate by candidate; then the `n` waits in the same
/// order; then the end.
pub open spec fn broadcast_move_at(n: nat, g: nat, m: MoveView) -> bool {
    if g < n {
        m == (MoveView::Create { member_index: g, coordinate: None, subtask: None })
    } else if g < 2 * n {
        m matches MoveView::Wait { member_index, .. } && member_index == g - n
    } else {
        g == 2 * n && m is Finish
    }
}

proof fn lemma_broadcast_moves_from(s: BroadcastState, es: Seq<ModeEventView>)
    requires
        broadcast_wf(s),
        s.started,
        s.candidates > 0,
    ensures
        forall|i: int| 0 <= i < broadcast_moves(s, es).len() ==> broadcast_move_at(
            s.candidates,
            (1 + s.ids.len() + s.outcomes.len() + i) as nat,
            #[trigger] broadcast_moves(s, es)[i],
        ),
    decreases es.len(),
{
    if es.len() > 0 && broadcast_accepts(s, es[0]) {
        let (t, m) = broadcast_step(s, es[0]);
        lemma_broadcast_moves_from(t, es.drop_first());
        let ms = broadcast_moves(s, es);
        let rest = broadcast_moves(t, es.drop_first());
        assert(ms == seq![m] + rest);
        assert forall|i: int| 0 <= i < ms.len() implies broadcast_move_at(
            s.candidates,
            (1 + s.ids.len() + s.outcomes.len() + i) as nat,
            #[trigger] ms[i],
        ) by {
            if i > 0 {
                assert(ms[i] == rest[i - 1]);
            }
        }
    }
}

/// A broadcast creates the delegations of all its candidates, in their order,
/// before it waits for any; then it waits for each in the same order, and ends
/// after the last. With no candidates its one move is the end, unsuccessful and
/// with no delegation.
pub proof fn lemma_broadcast_creates_all_before_waiting(n: nat, es: Seq<ModeEventView>)
    ensures
        ({
            let s0 = BroadcastState { candidates: n, started: false, finished: false, ids: seq![], outcomes: seq![] };
            let ms = broadcast_moves(s0, es);
            &&& n > 0 ==> forall|i: int| 0 <= i < ms.len() ==> broadcast_move_at(n, i as nat, #[trigger] ms[i])
            &&& n == 0 ==> ms.len() <= 1 && (ms.len() == 1 ==> ms[0] == (MoveView::Finish { success: false, delegation_ids: seq![] }))
        }),
{
    let s0 = BroadcastState { candidates: n, started: false, finished: false, ids: seq![], outcomes: seq![] };
    let ms = broadcast_moves(s0, es);
    if es.len() > 0 && broadcast_accepts(s0, es[0]) {
        let (t, m) = broadcast_step(s0, es[0]);
        let rest = broadcast_moves(t, es.drop_first());
        assert(ms == seq![m] + rest);
        if n > 0 {
            lemma_broadcast_moves_from(t, es.drop_first());
            assert forall|i: int| 0 <= i < ms.len() implies broadcast_move_at(n, i as nat, #[trigger] ms[i]) by {
                if i > 0 {
                    assert(ms[i] == rest[i - 1]);
                }
            }
        } else {
            assert(!broadcast_accepts(t, es.drop_first()[0]) || es.drop_first().len() == 0);
            assert(rest.len() == 0);
        }
    }
}

/// An outcome other than completion.
pub open spec fn is_failure(e: ModeEventView) -> bool {
    e matches ModeEventView::Outcome(k) && k != OutcomeKind::Completed
}

/// The moves a coordinate run makes for a sequence of events, up to the first event
/// it does not take.
pub open spec fn coordinate_moves(s: CoordinateState, es: Seq<ModeEventView>) -> Seq<MoveView>
    decreases es.len(),
{
    if es.len() == 0 || !coordinate_accepts(s, es[0]) {
        seq![]
    } else {
        seq![coordinate_step(s, es[0]).1] + coordinate_moves(coordinate_step(s, es[0]).0, es.drop_first())
    }
}

/// The move a coordinate run with `rounds` rounds makes at position `g` of its run:
/// creations and waits alternate, round `k` (from one) creating the delegation of
/// candidate `k - 1` with the previous round completed exactly when `k > 1`, and
/// then waiting for it; an even position may instead be the end.
pub open spec fn coordinate_move_at(rounds: nat, g: nat, m: MoveView) -> bool {
    if g % 2 == 1 {
        m matches MoveView::Wait { member_index, .. } && member_index == g / 2
    } else {
        m is Finish || (g / 2 < rounds && m == (MoveView::Create { member_index: g / 2, coordinate: Some((g / 2 + 1, g / 2 > 0)), subtask: None }))
    }
}

proof fn lemma_coordinate_moves_from(s: CoordinateState, es: Seq<ModeEventView>)
    requires
        coordinate_wf(s),
        s.started,
    ensures
        ({
            let ms = coordinate_moves(s, es);
            &&& ms.len() <= es.len()
            &&& forall|i: int| 0 <= i < ms.len() ==> coordinate_move_at(
                s.rounds,
                (1 + s.ids.len() + s.outcomes.len() + i) as nat,
                #[trigger] ms[i],
            )
            &&& forall|i: int| 0 <= i < ms.len() && (#[trigger] ms[i]) is Finish ==> i == ms.len() - 1
            &&& forall|i: int| 0 <= i < ms.len() && is_failure(#[trigger] es[i]) ==> ms[i] is Finish
        }),
    decreases es.len(),
{
    if es.len() > 0 && coordinate_accepts(s, es[0]) {
        let (t, m) = coordinate_step(s, es[0]);
        lemma_coordinate_moves_from(t, es.drop_first());
        let ms = coordinate_moves(s, es);
        let rest = coordinate_moves(t, es.drop_first());
        assert(ms == seq![m] + rest);
        if m is Finish {
            assert(t.finished);
            assert(es.drop_first().len() == 0 || !coordinate_accepts(t, es.drop_first()[0]));
            assert(rest.len() == 0);
        }
        assert forall|i: int| 0 <= i < ms.len() implies coordinate_move_at(
            s.rounds,
            (1 + s.ids.len() + s.outcomes.len() + i) as nat,
            #[trigger] ms[i],
        ) by {
            if i > 0 {
                assert(ms[i] == rest[i - 1]);
            }
        }
        assert forall|i: int| 0 <= i < ms.len() && (#[trigger] ms[i]) is Finish implies i == ms.len() - 1 by {
            if i > 0 {
                assert(ms[i] == rest[i - 1]);
            }
        }
        assert forall|i: int| 0 <= i < ms.len() && is_failure(#[trigger] es[i]) implies ms[i] is Finish by {
            if i > 0 {
                assert(ms[i] == rest[i - 1]);
                assert(es[i] == es.drop_first()[i - 1]);
            }
        }
    }
}

/// A coordinate run alternates creations and waits: round `k` (from one) creates
/// the delegation of candidate `k - 1`, marked as following a completed round
/// exactly when `k > 1`, waits for it, and only then opens the next round. It
/// creates no more delegations than it has rounds, ends at the first outcome other
/// than completion, and makes no move after its end.
pub proof fn lemma_coordinate_rounds_in_turn(candidates: nat, max_rounds: nat, es: Seq<ModeEventView>)
    ensures
        ({
            let rounds = min_nat(candidates, max_rounds);
            let s0 = CoordinateState { candidates, rounds, started: false, finished: false, ids: seq![], outcomes: seq![] };
            let ms = coordinate_moves(s0, es);
            &&& forall|i: int| 0 <= i < ms.len() ==> coordinate_move_at(rounds, i as nat, #[trigger] ms[i])
            &&& forall|i: int| 0 <= i < ms.len() && (#[trigger] ms[i]) is Finish ==> i == ms.len() - 1
            &&& forall|i: int| 0 <= i < ms.len() && is_failure(#[trigger] es[i]) ==> ms[i] is Finish
        }),
{
    let rounds = min_nat(candidates, max_rounds);
    let s0 = CoordinateState { candidates, rounds, started: false, finished: false, ids: seq![], outcomes: seq![] };
    let ms = coordinate_moves(s0, es);
    if es.len() > 0 && coordinate_accepts(s0, es[0]) {
        let (t, m) = coordinate_step(s0, es[0]);
        lemma_coordinate_moves_from(t, es.drop_first());
        let rest = coordinate_moves(t, es.drop_first());
        assert(ms == seq![m] + rest);
        if m is Finish {
            assert(es.drop_first().len() == 0 || !coordinate_accepts(t, es.drop_first()[0]));
            assert(rest.len() == 0);
        }
        assert forall|i: int| 0 <= i < ms.len() implies coordinate_move_at(rounds, i as nat, #[trigger] ms[i]) by {
            if i > 0 {
                assert(ms[i] == rest[i - 1]);
            }
        }
        assert forall|i: int| 0 <= i < ms.len() && (#[trigger] ms[i]) is Finish implies i == ms.len() - 1 by {
            if i > 0 {
                assert(ms[i] == rest[i - 1]);
            }
        }
        assert forall|i: int| 0 <= i < ms.len() && is_failure(#[trigger] es[i]) implies ms[i] is Finish by {
            if i > 0 {
                assert(ms[i] == rest[i - 1]);
                assert(es[i] == es.drop_first()[i - 1]);
            }
        }
    }
}

/// A tasks run as plain values: the number of candidates, the subtasks to
/// delegate, the parent task, whether it started and finished, the delegations
/// created and the outcomes recorded, in order.
pub struct TasksState {
    pub candidates: nat,
    pub subtasks: Seq<Seq<char>>,
    pub parent_task_id: u128,
    pub started: bool,
    pub finished: bool,
    pub ids: Seq<u128>,
    pub outcomes: Seq<OutcomeKind>,
}

/// Which events a tasks run takes in a state: the start once; then, subtask by
/// subtask, the creation of its delegation and the outcome of waiting for it.
pub open spec fn tasks_accepts(s: TasksState, e: ModeEventView) -> bool {
    match e {
        ModeEventView::Start => !s.started,
        ModeEventView::Created(_) => s.started && !s.finished && s.ids.len() == s.outcomes.len(),
        ModeEventView::Outcome(_) => s.started && !s.finished && s.ids.len() == s.outcomes.len() + 1,
    }
}

/// The creation of subtask `i`'s delegation: for candidate `i` modulo their number,
/// with the subtask's goal, its index, the number of subtasks and the parent task.
pub open spec fn subtask_create(s: TasksState, i: nat) -> MoveView {
    MoveView::Create {
        member_index: i % s.candidates,
        coordinate: None,
        subtask: Some((s.subtasks[i as int], i, s.subtasks.len(), s.parent_task_id, true)),
    }
}

/// A tasks step: with no candidates it finishes at once, unsuccessfully and with
/// no delegation. Otherwise the subtasks are delegated one at a time, the
/// candidates taken in turn: each delegation is created and waited for before the
/// next is created, whatever its outcome. After the last outcome the run finishes,
/// successfully when every subtask completed.
pub open spec fn tasks_step(s: TasksState, e: ModeEventView) -> (TasksState, MoveView) {
    match e {
        ModeEventView::Start => if s.candidates == 0 {
            (TasksState { started: true, finished: true, ..s }, MoveView::Finish { success: false, delegation_ids: seq![] })
        } else if s.subtasks.len() == 0 {
            (TasksState { started: true, finished: true, ..s }, MoveView::Finish { success: true, delegation_ids: seq![] })
        } else {
            (TasksState { started: true, ..s }, subtask_create(s, 0))
        },
        ModeEventView::Created(id) => (
            TasksState { ids: s.ids.push(id), ..s },
            MoveView::Wait { member_index: s.ids.len() % s.candidates, delegation_id: id },
        ),
        ModeEventView::Outcome(k) => {
            let os = s.outcomes.push(k);
            if os.len() == s.subtasks.len() {
                (
                    TasksState { outcomes: os, finished: true, ..s },
                    MoveView::Finish { success: failed_count(os) == 0, delegation_ids: s.ids },
                )
            } else {
                (TasksState { outcomes: os, ..s }, subtask_create(s, os.len()))
            }
        },
    }
}

/// A tasks state that a run can be in: at most one delegation per subtask, each
/// subtask's outcome before the next subtask's delegation.
pub open spec fn tasks_wf(s: TasksState) -> bool {
    &&& s.ids.len() <= s.subtasks.len()
    &&& s.outcomes.len() <= s.ids.len() <= s.outcomes.len() + 1
    &&& !s.started ==> s.ids.len() == 0
    &&& s.finished == (s.started && (s.candidates == 0 || s.subtasks.len() == 0 || s.outcomes.len() == s.subtasks.len()))
}

/// A decomposed team task, delegated step by step.
pub struct TasksRun {
    roles: Vec<String>,
    goal: String,
    subtasks: Vec<String>,
    parent_task_id: u128,
    started: bool,
    finished: bool,
    delegation_ids: Vec<u128>,
    outcomes: Vec<OutcomeKind>,
    tally: ModeTally,
}

impl View for TasksRun {
    type V = TasksState;

    closed spec fn view(&self) -> TasksState {
        TasksState {
            candidates: self.roles@.len(),
            subtasks: self.subtasks@.map_values(|t: String| t@),
            parent_task_id: self.parent_task_id,
            started: self.started,
            finished: self.finished,
            ids: self.delegation_ids@,
            outcomes: self.outcomes@,
        }
    }
}

impl TasksRun {
    pub closed spec fn goal(&self) -> Seq<char> {
        self.goal@
    }

    /// The candidates' roles, in order.
    pub closed spec fn roles(&self) -> Seq<Seq<char>> {
        self.roles@.map_values(|r: String| r@)
    }

    pub closed spec fn wf(&self) -> bool {
        &&& tasks_wf(self@)
        &&& (self.tally.delegations as nat, self.tally.accepted as nat, self.tally.failed as nat) == tally_of(self.outcomes@)
    }

    /// A run of the task `parent_task_id` with this goal over the candidates with
    /// these roles: the goal's subtasks, at most `max_parallel_tasks` of them, not
    /// started yet.
    pub fn new(roles: Vec<String>, goal: &str, parent_task_id: u128, max_parallel_tasks: usize) -> (r: TasksRun)
        ensures
            r.wf(),
            r@ == (TasksState {
                candidates: roles@.len(),
                subtasks: spec_decompose(goal@).take(min_nat(spec_decompose(goal@).len(), max_parallel_tasks as nat) as int),
                parent_task_id,
                started: false,
                finished: false,
                ids: seq![],
                outcomes: seq![],
            }),
            r.goal() == goal@,
            r.roles() == roles@.map_values(|s: String| s@),
    {
        let handler = TasksModeHandler { max_parallel_tasks };
        let mut subtasks = handler.decompose_task(goal);
        let ghost all = subtasks@;
        let k = if subtasks.len() <= max_parallel_tasks { subtasks.len() } else { max_parallel_tasks };
        subtasks.truncate(k);
        proof {
            let d = spec_decompose(goal@);
            assert(subtasks@.map_values(|t: String| t@) =~= d.take(k as int));
        }
        let r = TasksRun {
            roles,
            goal: goal.to_string(),
            subtasks,
            parent_task_id,
            started: false,
            finished: false,
            delegation_ids: Vec::new(),
            outcomes: Vec::new(),
            tally: ModeTally::new(),
        };
        assert(r@.ids =~= Seq::<u128>::empty());
        assert(r@.outcomes =~= Seq::<OutcomeKind>::empty());
        r
    }

    /// Whether the run takes `e` now.
    pub fn accepts(&self, e: &ModeEvent) -> (b: bool)
        requires
            self.wf(),
        ensures
            b == tasks_accepts(self@, event_view(*e)),
    {
        match e {
            ModeEvent::Start => !self.started,
            ModeEvent::Created(_) => self.started && !self.finished && self.delegation_ids.len() == self.outcomes.len(),
            ModeEvent::Outcome(_) => self.started && !self.finished && self.outcomes.len() < self.delegation_ids.len(),
        }
    }

    /// One step: the next state and what to do. The start records the opening
    /// decision; each subtask opens with its decision; an outcome is recorded with
    /// the tasks mode's statuses and events; the end records the closing decision
    /// and gives the result, whose summary counts the subtasks and the failed ones.
    pub fn step(self, e: ModeEvent) -> (r: (TasksRun, ModeAction))
        requires
            self.wf(),
            tasks_accepts(self@, event_view(e)),
        ensures
            r.0.wf(),
            r.0.goal() == self.goal(),
            r.0.roles() == self.roles(),
            (r.0@, move_view(r.1.next)) == tasks_step(self@, event_view(e)),
            r.1.record is Some <==> e is Outcome,
            e matches ModeEvent::Outcome(o) ==> (r.1.record matches Some((m, d, st))
                && m == self@.outcomes.len() % self@.candidates && d == self@.ids[self@.outcomes.len() as int]
                && records_outcome(st, ModeKind::Tasks, o)),
            r.1.next matches ModeMove::Create { member_index, subtask, .. } ==> r.1.decisions@.len() >= 1
                && (subtask matches Some(p) && r.1.decisions@.last()@
                    == tasks_item_text(p.subtask_index as nat + 1, p.goal@, self.roles()[member_index as int])),
            (e is Start && self@.candidates > 0) ==> r.1.decisions@.len() >= 1
                && r.1.decisions@[0]@ == tasks_start_text(self@.subtasks.len(), self.goal()),
            r.1.next matches ModeMove::Finish(res) ==> res.published_artifact_ids@.len() == 0,
            r.1.next matches ModeMove::Finish(res) ==> (if self@.candidates == 0 {
                res.summary@ == no_candidates_summary(ModeKind::Tasks) && r.1.decisions@.len() == 0
            } else {
                let failed = failed_count(r.0@.outcomes);
                &&& res.summary@ == tasks_summary_text(self@.subtasks.len(), failed)
                &&& r.1.decisions@.len() >= 1
                &&& r.1.decisions@.last()@ == tasks_final_text(self@.subtasks.len(), failed, self.goal())
            }),
            r.1.decisions@.len() <= 2,
            (e is Created) ==> r.1.decisions@.len() == 0,
    {
        let mut run = self;
        let ghost old_outcomes = run.outcomes@;
        proof {
            lemma_tally_accounts_for_every_outcome(old_outcomes);
        }
        match e {
            ModeEvent::Start => {
                run.started = true;
                if run.roles.len() == 0 {
                    run.finished = true;
                    let res = no_candidates_result(ModeKind::Tasks);
                    assert(res.delegation_ids@ =~= Seq::<u128>::empty());
                    return (run, ModeAction { record: None, decisions: Vec::new(), next: ModeMove::Finish(res) });
                }
                let mut decisions: Vec<String> = Vec::new();
                decisions.push(tasks_start_decision(run.subtasks.len(), run.goal.as_str()));
                if run.subtasks.len() == 0 {
                    run.finished = true;
                    decisions.push(tasks_final_decision(0, 0, run.goal.as_str()));
                    let res = tasks_result(&run.tally, Vec::new());
                    assert(res.delegation_ids@ =~= Seq::<u128>::empty());
                    (run, ModeAction { record: None, decisions, next: ModeMove::Finish(res) })
                } else {
                    decisions.push(tasks_item_decision(1, run.subtasks[0].as_str(), run.roles[0].as_str()));
                    assert(run@.subtasks[0] == run.subtasks@[0]@);
                    let p = subtask_payload(run.subtasks[0].as_str(), 0, run.subtasks.len(), run.parent_task_id);
                    (run, ModeAction { record: None, decisions, next: ModeMove::Create { member_index: 0, coordinate: None, subtask: Some(p) } })
                }
            },
            ModeEvent::Created(id) => {
                let m = run.delegation_ids.len() % run.roles.len();
                run.delegation_ids.push(id);
                (run, ModeAction { record: None, decisions: Vec::new(), next: ModeMove::Wait { member_index: m, delegation_id: id } })
            },
            ModeEvent::Outcome(o) => {
                let j = run.outcomes.len();
                let idn = run.delegation_ids.len();
                assert(j < idn);
                let m = j % run.roles.len();
                let d = run.delegation_ids[j];
                let st = handle_outcome(ModeKind::Tasks, &o);
                let k = match o {
                    DelegationWaitOutcome::Completed => OutcomeKind::Completed,
                    DelegationWaitOutcome::Failed(_) => OutcomeKind::Failed,
                    DelegationWaitOutcome::Rejected(_) => OutcomeKind::Rejected,
                    DelegationWaitOutcome::TimeoutPartial(_) => OutcomeKind::TimeoutPartial,
                    DelegationWaitOutcome::Timeout => OutcomeKind::Timeout,
                };
                run.tally.record(k);
                run.outcomes.push(k);
                proof {
                    assert(run.outcomes@.drop_last() =~= old_outcomes);
                    lemma_tally_accounts_for_every_outcome(run.outcomes@);
                }
                let record = Some((m, d, st));
                let mut decisions: Vec<String> = Vec::new();
                if run.outcomes.len() == run.subtasks.len() {
                    run.finished = true;
                    decisions.push(tasks_final_decision(run.subtasks.len(), run.tally.failed, run.goal.as_str()));
                    let res = tasks_result(&run.tally, copy_ids(&run.delegation_ids));
                    (run, ModeAction { record, decisions, next: ModeMove::Finish(res) })
                } else {
                    let next = j + 1;
                    let member = next % run.roles.len();
                    decisions.push(tasks_item_decision(next + 1, run.subtasks[next].as_str(), run.roles[member].as_str()));
                    let p = subtask_payload(run.subtasks[next].as_str(), next, run.subtasks.len(), run.parent_task_id);
                    assert(run@.subtasks[next as int] == run.subtasks@[next as int]@);
                    (run, ModeAction { record, decisions, next: ModeMove::Create { member_index: member, coordinate: None, subtask: Some(p) } })
                }
            },
        }
    }
}

/// The move a tasks run over `n` candidates makes at position `g` of its run:
/// creations and waits alternate, subtask `i` going to candidate `i` modulo `n`
/// with its goal, index, the number of subtasks and the parent task; after the last
/// subtask's wait comes the end.
pub open spec fn tasks_move_at(s0: TasksState, g: nat, m: MoveView) -> bool {
    if g % 2 == 1 {
        m matches MoveView::Wait { member_index, .. } && member_index == (g / 2) % s0.candidates
    } else if g / 2 < s0.subtasks.len() {
        m == subtask_create(s0, g / 2)
    } else {
        g == 2 * s0.subtasks.len() && m is Finish
    }
}

/// The moves a tasks run makes for a sequence of events, up to the first event it
/// does not take.
pub open spec fn tasks_moves(s: TasksState, es: Seq<ModeEventView>) -> Seq<MoveView>
    decreases es.len(),
{
    if es.len() == 0 || !tasks_accepts(s, es[0]) {
        seq![]
    } else {
        seq![tasks_step(s, es[0]).1] + tasks_moves(tasks_step(s, es[0]).0, es.drop_first())
    }
}

proof fn lemma_tasks_moves_from(s: TasksState, es: Seq<ModeEventView>)
    requires
        tasks_wf(s),
        s.started,
        s.candidates > 0,
    ensures
        forall|i: int| 0 <= i < tasks_moves(s, es).len() ==> tasks_move_at(
            s,
            (1 + s.ids.len() + s.outcomes.len() + i) as nat,
            #[trigger] tasks_moves(s, es)[i],
        ),
    decreases es.len(),
{
    if es.len() > 0 && tasks_accepts(s, es[0]) {
        let (t, m) = tasks_step(s, es[0]);
        lemma_tasks_moves_from(t, es.drop_first());
        let ms = tasks_moves(s, es);
        let rest = tasks_moves(t, es.drop_first());
        assert(ms == seq![m] + rest);
        assert(subtask_create(t, 0) == subtask_create(s, 0));
        assert forall|i: int| 0 <= i < ms.len() implies tasks_move_at(
            s,
            (1 + s.ids.len() + s.outcomes.len() + i) as nat,
            #[trigger] ms[i],
        ) by {
            if i > 0 {
                assert(ms[i] == rest[i - 1]);
                let g = (1 + s.ids.len() + s.outcomes.len() + i) as nat;
                if g % 2 == 0 && g / 2 < s.subtasks.len() {
                    assert(subtask_create(t, g / 2) == subtask_create(s, g / 2));
                }
            }
        }
    }
}

/// A tasks run delegates its subtasks one at a time: subtask `i` (from zero) goes
/// to candidate `i` modulo their number, with its goal, its index, the number of
/// subtasks and the parent task; its delegation is waited for before the next one
/// is created; after the last subtask's wait the run ends. With no candidates its
/// one move is the end, unsuccessful and with no delegation.
pub proof fn lemma_tasks_delegates_in_turn(n: nat, subtasks: Seq<Seq<char>>, parent_task_id: u128, es: Seq<ModeEventView>)
    ensures
        ({
            let s0 = TasksState { candidates: n, subtasks, parent_task_id, started: false, finished: false, ids: seq![], outcomes: seq![] };
            let ms = tasks_moves(s0, es);
            &&& n > 0 ==> forall|i: int| 0 <= i < ms.len() ==> tasks_move_at(s0, i as nat, #[trigger] ms[i])
            &&& n == 0 ==> ms.len() <= 1 && (ms.len() == 1 ==> ms[0] == (MoveView::Finish { success: false, delegation_ids: seq![] }))
        }),
{
    let s0 = TasksState { candidates: n, subtasks, parent_task_id, started: false, finished: false, ids: seq![], outcomes: seq![] };
    let ms = tasks_moves(s0, es);
    if es.len() > 0 && tasks_accepts(s0, es[0]) {
        let (t, m) = tasks_step(s0, es[0]);
        let rest = tasks_moves(t, es.drop_first());
        assert(ms == seq![m] + rest);
        if n > 0 {
            lemma_tasks_moves_from(t, es.drop_first());
            assert forall|i: int| 0 <= i < ms.len() implies tasks_move_at(s0, i as nat, #[trigger] ms[i]) by {
                if i > 0 {
                    assert(ms[i] == rest[i - 1]);
                    let g = i as nat;
                    if g % 2 == 0 && g / 2 < subtasks.len() {
                        assert(subtask_create(t, g / 2) == subtask_create(s0, g / 2));
                    }
                }
            }
        } else {
            assert(es.drop_first().len() == 0 || !tasks_accepts(t, es.drop_first()[0]));
            assert(rest.len() == 0);
        }
    }
}

/// A route run as plain values: the number of candidates, whether it started and
/// finished, and the delegation created.
pub struct RouteState {
    pub candidates: nat,
    pub started: bool,
    pub finished: bool,
    pub ids: Seq<u128>,
}

/// Which events a route run takes: the start, the creation of its one delegation,
/// and the outcome of waiting for it.
pub open spec fn route_accepts(s: RouteState, e: ModeEventView) -> bool {
    match e {
        ModeEventView::Start => !s.started,
        ModeEventView::Created(_) => s.started && !s.finished && s.ids.len() == 0,
        ModeEventView::Outcome(_) => s.started && !s.finished && s.ids.len() == 1,
    }
}

/// A route step: with no candidates it finishes at once, unsuccessfully and with
/// no delegation; otherwise it creates one delegation for the first candidate,
/// waits for it, and finishes, successfully exactly when it completed.
pub open spec fn route_step(s: RouteState, e: ModeEventView) -> (RouteState, MoveView) {
    match e {
        ModeEventView::Start => if s.candidates == 0 {
            (RouteState { started: true, finished: true, ..s }, MoveView::Finish { success: false, delegation_ids: seq![] })
        } else {
            (RouteState { started: true, ..s }, MoveView::Create { member_index: 0, coordinate: None, subtask: None })
        },
        ModeEventView::Created(id) => (RouteState { ids: seq![id], ..s }, MoveView::Wait { member_index: 0, delegation_id: id }),
        ModeEventView::Outcome(k) => (
            RouteState { finished: true, ..s },
            MoveView::Finish { success: k == OutcomeKind::Completed, delegation_ids: s.ids },
        ),
    }
}

pub open spec fn route_wf(s: RouteState) -> bool {
    &&& s.ids.len() <= 1
    &&& !s.started ==> s.ids.len() == 0 && !s.finished
    &&& s.candidates == 0 ==> s.ids.len() == 0
    &&& (s.started && s.candidates == 0) ==> s.finished
}

/// A routed team task, step by step: the first candidate gets it.
pub struct RouteRun {
    candidates: usize,
    role: String,
    goal: String,
    started: bool,
    finished: bool,
    delegation_ids: Vec<u128>,
}

impl View for RouteRun {
    type V = RouteState;

    closed spec fn view(&self) -> RouteState {
        RouteState { candidates: self.candidates as nat, started: self.started, finished: self.finished, ids: self.delegation_ids@ }
    }
}

impl RouteRun {
    pub closed spec fn goal(&self) -> Seq<char> {
        self.goal@
    }

    /// The first candidate's role.
    pub closed spec fn role(&self) -> Seq<char> {
        self.role@
    }

    pub closed spec fn wf(&self) -> bool {
        route_wf(self@)
    }

    /// A run over `candidates` candidates, the first of which has `first_role`.
    pub fn new(candidates: usize, first_role: &str, goal: &str) -> (r: RouteRun)
        ensures
            r.wf(),
            r@ == (RouteState { candidates: candidates as nat, started: false, finished: false, ids: seq![] }),
            r.role() == first_role@,
            r.goal() == goal@,
    {
        let r = RouteRun {
            candidates,
            role: first_role.to_string(),
            goal: goal.to_string(),
            started: false,
            finished: false,
            delegation_ids: Vec::new(),
        };
        assert(r@.ids =~= Seq::<u128>::empty());
        r
    }

    /// Whether the run takes `e` now.
    pub fn accepts(&self, e: &ModeEvent) -> (b: bool)
        requires
            self.wf(),
        ensures
            b == route_accepts(self@, event_view(*e)),
    {
        match e {
            ModeEvent::Start => !self.started,
            ModeEvent::Created(_) => self.started && !self.finished && self.delegation_ids.len() == 0,
            ModeEvent::Outcome(_) => self.started && !self.finished && self.delegation_ids.len() == 1,
        }
    }

    /// One step: the next state and what to do. The outcome is recorded with
    /// route's statuses and events, followed by route's decision (none after a
    /// timeout) and the result. A partial timeout's summary shows
    /// `partial_quality_text`, the caller's rendering of the partial quality.
    pub fn step(self, e: ModeEvent, partial_quality_text: &str) -> (r: (RouteRun, ModeAction))
        requires
            self.wf(),
            route_accepts(self@, event_view(e)),
        ensures
            r.0.wf(),
            r.0.goal() == self.goal(),
            r.0.role() == self.role(),
            (r.0@, move_view(r.1.next)) == route_step(self@, event_view(e)),
            r.1.record is Some <==> e is Outcome,
            e matches ModeEvent::Outcome(o) ==> (r.1.record matches Some((m, d, st))
                && m == 0 && d == self@.ids[0] && records_outcome(st, ModeKind::Route, o)),
            e matches ModeEvent::Outcome(o) ==> (r.1.next matches ModeMove::Finish(res)
                && res.summary@ == route_summary_text(o, self.role(), self@.ids[0], partial_quality_text@)
                && res.published_artifact_ids@.len() == 0
                && match route_decision_text(o, self.role(), self.goal()) {
                    Some(t) => r.1.decisions@.len() == 1 && r.1.decisions@[0]@ == t,
                    None => r.1.decisions@.len() == 0,
                }),
            !(e is Outcome) ==> r.1.decisions@.len() == 0,
            (e is Start && self@.candidates == 0) ==> (r.1.next matches ModeMove::Finish(res)
                && res.summary@ == no_candidates_summary(ModeKind::Route)),
    {
        let mut run = self;
        match e {
            ModeEvent::Start => {
                run.started = true;
                if run.candidates == 0 {
                    run.finished = true;
                    let res = no_candidates_result(ModeKind::Route);
                    assert(res.delegation_ids@ =~= Seq::<u128>::empty());
                    (run, ModeAction { record: None, decisions: Vec::new(), next: ModeMove::Finish(res) })
                } else {
                    (run, ModeAction { record: None, decisions: Vec::new(), next: ModeMove::Create { member_index: 0, coordinate: None, subtask: None } })
                }
            },
            ModeEvent::Created(id) => {
                run.delegation_ids.push(id);
                assert(run.delegation_ids@ =~= seq![id]);
                (run, ModeAction { record: None, decisions: Vec::new(), next: ModeMove::Wait { member_index: 0, delegation_id: id } })
            },
            ModeEvent::Outcome(o) => {
                run.finished = true;
                let d = run.delegation_ids[0];
                let st = handle_outcome(ModeKind::Route, &o);
                let mut decisions: Vec<String> = Vec::new();
                match route_decision(&o, run.role.as_str(), run.goal.as_str()) {
                    Some(t) => decisions.push(t),
                    None => {},
                }
                let res = route_result(&o, run.role.as_str(), d, partial_quality_text);
                assert(run.delegation_ids@ =~= seq![d]);
                (run, ModeAction { record: Some((0, d, st)), decisions, next: ModeMove::Finish(res) })
            },
        }
    }
}

} // verus!
