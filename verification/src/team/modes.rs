//! The supervisor's team modes: route, broadcast, coordinate and tasks. The
//! decisions of each mode are here; the caller performs the delegations and waits.

use vstd::prelude::*;
use crate::ids::{uuid_string, uuid_text};
use crate::text::{
    concat_strs, concat_views, num_text, spec_decimal,
    append_chars, chars_of, is_numeric, is_numeric_char, join_spaces, join_words, lines,
    spec_lines, spec_split_whitespace, spec_trim, split_whitespace, string_of, text_is, trim,
};

verus! {

/// Hands a team task to the first candidate.
#[derive(Debug, Clone, Copy, PartialEq, Eq, Structural)]
pub struct RouteModeHandler;

impl RouteModeHandler {
    pub fn new() -> (h: RouteModeHandler) {
        RouteModeHandler
    }
}

/// Hands a team task to every candidate.
#[derive(Debug, Clone, Copy, PartialEq, Eq, Structural)]
pub struct BroadcastModeHandler;

impl BroadcastModeHandler {
    pub fn new() -> (h: BroadcastModeHandler) {
        BroadcastModeHandler
    }
}

/// Hands a team task round by round to the candidates in turn, stopping at the first failure.
#[derive(Debug, Clone, Copy, PartialEq, Eq, Structural)]
pub struct CoordinateModeHandler {
    pub max_rounds: usize,
}

impl CoordinateModeHandler {
    pub fn new() -> (h: CoordinateModeHandler)
        ensures
            h.max_rounds == 3,
    {
        CoordinateModeHandler { max_rounds: 3 }
    }
}

/// Splits a team task into subtasks and hands them to the candidates in turn.
#[derive(Debug, Clone, Copy, PartialEq, Eq, Structural)]
pub struct TasksModeHandler {
    pub max_parallel_tasks: usize,
}

/// One line of a goal as a subtask: trimmed, with a leading list marker (digits and
/// `.`, `)`, `:`) taken off and trimmed again.
pub open spec fn is_marker_char(c: char) -> bool {
    is_numeric_char(c) || c == '.' || c == ')' || c == ':'
}

pub open spec fn trim_markers(s: Seq<char>) -> Seq<char>
    decreases s.len(),
{
    if s.len() > 0 && is_marker_char(s[0]) { trim_markers(s.drop_first()) } else { s }
}

pub open spec fn clean_line(line: Seq<char>) -> Seq<char> {
    spec_trim(trim_markers(spec_trim(line)))
}

/// The subtasks that the lines give: each non-empty cleaned line.
pub open spec fn line_subtasks(ls: Seq<Seq<char>>) -> Seq<Seq<char>>
    decreases ls.len(),
{
    if ls.len() == 0 {
        seq![]
    } else {
        line_subtasks(ls.drop_last()) + if clean_line(ls.last()).len() > 0 { seq![clean_line(ls.last())] } else { seq![] }
    }
}

/// How a goal is split into subtasks: one per non-empty line; if that gives fewer
/// than two and the goal has more than ten words, its two halves by words are added;
/// if nothing at all results, the goal itself.
pub open spec fn spec_decompose(goal: Seq<char>) -> Seq<Seq<char>> {
    let from_lines = line_subtasks(spec_lines(goal));
    let words = spec_split_whitespace(goal);
    let mid = words.len() / 2;
    let with_halves = if from_lines.len() < 2 && words.len() > 10 {
        from_lines + seq![join_spaces(words.subrange(0, mid as int)), join_spaces(words.subrange(mid as int, words.len() as int))]
    } else {
        from_lines
    };
    if with_halves.len() == 0 { seq![goal] } else { with_halves }
}

impl TasksModeHandler {
    pub fn new() -> (h: TasksModeHandler)
        ensures
            h.max_parallel_tasks == 5,
    {
        TasksModeHandler { max_parallel_tasks: 5 }
    }

    /// Splits a goal into subtasks.
    pub fn decompose_task(&self, goal: &str) -> (subtasks: Vec<String>)
        ensures
            subtasks@.len() == spec_decompose(goal@).len(),
            forall|k: int| 0 <= k < subtasks@.len() ==> #[trigger] subtasks@[k]@ == spec_decompose(goal@)[k],
    {
        let g = chars_of(goal);
        let ls = lines(g.as_slice());
        let ghost sl = spec_lines(goal@);
        let mut subtasks: Vec<String> = Vec::new();
        let mut i: usize = 0;
        while i < ls.len()
            invariant
                i <= ls@.len(),
                ls@.len() == sl.len(),
                g@ == goal@,
                sl == spec_lines(goal@),
                forall|m: int| 0 <= m < ls@.len() ==> #[trigger] ls@[m]@ == sl[m],
                subtasks@.len() == line_subtasks(sl.take(i as int)).len(),
                forall|k: int| 0 <= k < subtasks@.len() ==> #[trigger] subtasks@[k]@ == line_subtasks(sl.take(i as int))[k],
            decreases ls@.len() - i,
        {
            assert(sl.take(i + 1).drop_last() =~= sl.take(i as int));
            let trimmed = trim(ls[i].as_slice());
            let mut start: usize = 0;
            assert(trimmed@.subrange(0, trimmed@.len() as int) =~= trimmed@);
            while start < trimmed.len() && (is_numeric(trimmed[start]) || trimmed[start] == '.' || trimmed[start] == ')' || trimmed[start] == ':')
                invariant
                    start <= trimmed@.len(),
                    trim_markers(trimmed@) == trim_markers(trimmed@.subrange(start as int, trimmed@.len() as int)),
                decreases trimmed@.len() - start,
            {
                assert(trimmed@.subrange(start as int, trimmed@.len() as int).drop_first()
                    =~= trimmed@.subrange(start + 1, trimmed@.len() as int));
                start = start + 1;
            }
            proof {
                assert(trimmed@.subrange(0, trimmed@.len() as int) =~= trimmed@);
            }
            let rest = crate::text::slice_range(trimmed.as_slice(), start, trimmed.len());
            let cleaned = trim(rest.as_slice());
            if cleaned.len() > 0 {
                subtasks.push(string_of(cleaned.as_slice()));
            }
            i = i + 1;
        }
        assert(sl.take(ls@.len() as int) =~= sl);
        if subtasks.len() < 2 {
            let words = split_whitespace(g.as_slice());
            if words.len() > 10 {
                let mid = words.len() / 2;
                let ghost wv = spec_split_whitespace(goal@);
                let first = join_words(&words, 0, mid);
                let second = join_words(&words, mid, words.len());
                proof {
                    assert(words@.subrange(0, mid as int).map_values(|w: Vec<char>| w@) =~= wv.subrange(0, mid as int));
                    assert(words@.subrange(mid as int, words@.len() as int).map_values(|w: Vec<char>| w@)
                        =~= wv.subrange(mid as int, wv.len() as int));
                }
                subtasks.push(string_of(first.as_slice()));
                subtasks.push(string_of(second.as_slice()));
            }
        }
        if subtasks.len() == 0 {
            subtasks.push(String::from_str(goal));
        }
        subtasks
    }
}

/// A decomposition never comes out empty.
pub proof fn lemma_decompose_nonempty(goal: Seq<char>)
    ensures
        spec_decompose(goal).len() >= 1,
{
}

/// Which mode a team task runs in, with its handler.
pub enum TeamModeHandler {
    Route(RouteModeHandler),
    Broadcast(BroadcastModeHandler),
    Coordinate(CoordinateModeHandler),
    Tasks(TasksModeHandler),
}

/// The mode names that `from_mode_name` knows, and what they give.
pub open spec fn mode_of_name(name: Seq<char>) -> Option<TeamModeHandler> {
    if name == "route"@ {
        Some(TeamModeHandler::Route(RouteModeHandler))
    } else if name == "broadcast"@ {
        Some(TeamModeHandler::Broadcast(BroadcastModeHandler))
    } else if name == "coordinate"@ {
        Some(TeamModeHandler::Coordinate(CoordinateModeHandler { max_rounds: 3 }))
    } else if name == "tasks"@ {
        Some(TeamModeHandler::Tasks(TasksModeHandler { max_parallel_tasks: 5 }))
    } else {
        None
    }
}

impl TeamModeHandler {
    pub fn route() -> (h: TeamModeHandler)
        ensures
            h == TeamModeHandler::Route(RouteModeHandler),
    {
        TeamModeHandler::Route(RouteModeHandler::new())
    }

    pub fn broadcast() -> (h: TeamModeHandler)
        ensures
            h == TeamModeHandler::Broadcast(BroadcastModeHandler),
    {
        TeamModeHandler::Broadcast(BroadcastModeHandler::new())
    }

    pub fn coordinate() -> (h: TeamModeHandler)
        ensures
            h == TeamModeHandler::Coordinate(CoordinateModeHandler { max_rounds: 3 }),
    {
        TeamModeHandler::Coordinate(CoordinateModeHandler::new())
    }

    pub fn tasks() -> (h: TeamModeHandler)
        ensures
            h == TeamModeHandler::Tasks(TasksModeHandler { max_parallel_tasks: 5 }),
    {
        TeamModeHandler::Tasks(TasksModeHandler::new())
    }

    /// The handler for a mode name: `route`, `broadcast`, `coordinate` or `tasks`.
    pub fn from_mode_name(mode_name: &str) -> (h: Option<TeamModeHandler>)
        ensures
            h == mode_of_name(mode_name@),
    {
        if text_is(mode_name, "route") {
            Some(Self::route())
        } else if text_is(mode_name, "broadcast") {
            Some(Self::broadcast())
        } else if text_is(mode_name, "coordinate") {
            Some(Self::coordinate())
        } else if text_is(mode_name, "tasks") {
            Some(Self::tasks())
        } else {
            None
        }
    }
}

/// Quality of the partial work handed back when a delegation timed out. The two
/// scores are `f32` values; they are kept as their bit patterns (`f32::to_bits`).
pub struct PartialQuality {
    pub completeness_bits: u32,
    pub correctness_confidence_bits: u32,
    pub usable_as_is: bool,
    pub requires_repair: Vec<String>,
    pub estimated_remaining_work: Option<String>,
}

/// How waiting for a delegation ended.
pub enum DelegationWaitOutcome {
    Completed,
    Failed(String),
    Rejected(String),
    TimeoutPartial(PartialQuality),
    Timeout,
}

/// A delegation's status event, with what waiting for it needs: the error of a
/// failure, the rendered reason of a rejection, the quality of partial work.
pub enum DelegationEvent {
    Created,
    Accepted,
    Completed,
    Failed { error: String },
    TimeoutPartial { partial_quality: PartialQuality },
    Rejected { reason: String },
}

/// What the waiting loop got on one turn.
pub enum WaitInput {
    /// Subscribing to the delegation's events failed.
    SubscribeFailed,
    /// No time is left before the deadline.
    DeadlineReached,
    /// The next event did not come before the deadline.
    TimedOut,
    /// The stream ended without an event.
    StreamEnded,
    Event(DelegationEvent),
}

/// Whether the wait is over after `input`: `Some(outcome)` when it is, `None` to keep waiting.
pub open spec fn spec_wait_step(input: WaitInput) -> Option<DelegationWaitOutcome> {
    match input {
        WaitInput::SubscribeFailed | WaitInput::DeadlineReached | WaitInput::TimedOut => Some(DelegationWaitOutcome::Timeout),
        WaitInput::StreamEnded => None,
        WaitInput::Event(e) => match e {
            DelegationEvent::Completed => Some(DelegationWaitOutcome::Completed),
            DelegationEvent::Failed { error } => Some(DelegationWaitOutcome::Failed(error)),
            DelegationEvent::TimeoutPartial { partial_quality } => Some(DelegationWaitOutcome::TimeoutPartial(partial_quality)),
            DelegationEvent::Rejected { reason } => Some(DelegationWaitOutcome::Rejected(reason)),
            DelegationEvent::Created | DelegationEvent::Accepted => None,
        },
    }
}

/// One turn of waiting for a delegation to finish: completion, failure, rejection
/// and partial timeout end the wait with that outcome; running out of time or
/// failing to subscribe ends it as a timeout; anything else keeps waiting.
pub fn wait_step(input: WaitInput) -> (r: Option<DelegationWaitOutcome>)
    ensures
        r == spec_wait_step(input),
        (r matches Some(DelegationWaitOutcome::Completed)) <==> (input matches WaitInput::Event(DelegationEvent::Completed)),
        (input matches WaitInput::Event(DelegationEvent::Created)) ==> r is None,
        (input matches WaitInput::Event(DelegationEvent::Accepted)) ==> r is None,
{
    proof { lemma_wait_ends_only_at_an_end(input); }
    match input {
        WaitInput::SubscribeFailed | WaitInput::DeadlineReached | WaitInput::TimedOut => Some(DelegationWaitOutcome::Timeout),
        WaitInput::StreamEnded => None,
        WaitInput::Event(e) => match e {
            DelegationEvent::Completed => Some(DelegationWaitOutcome::Completed),
            DelegationEvent::Failed { error } => Some(DelegationWaitOutcome::Failed(error)),
            DelegationEvent::TimeoutPartial { partial_quality } => Some(DelegationWaitOutcome::TimeoutPartial(partial_quality)),
            DelegationEvent::Rejected { reason } => Some(DelegationWaitOutcome::Rejected(reason)),
            DelegationEvent::Created | DelegationEvent::Accepted => None,
        },
    }
}

/// Waiting ends as a completion exactly when the delegation's completion arrives:
/// its creation or acceptance, or a stream that ended, keeps the wait going; a
/// failure or rejection ends it with the member's own error or reason; a partial
/// timeout with its quality; and running out of time, or failing to subscribe,
/// ends it as a plain timeout.
pub proof fn lemma_wait_ends_only_at_an_end(input: WaitInput)
    ensures
        (spec_wait_step(input) matches Some(DelegationWaitOutcome::Completed))
            <==> (input matches WaitInput::Event(DelegationEvent::Completed)),
        (spec_wait_step(input) is None) <==> (input is StreamEnded
            || input matches WaitInput::Event(DelegationEvent::Created)
            || input matches WaitInput::Event(DelegationEvent::Accepted)),
        input matches WaitInput::Event(DelegationEvent::Failed { error })
            ==> spec_wait_step(input) == Some(DelegationWaitOutcome::Failed(error)),
        input matches WaitInput::Event(DelegationEvent::Rejected { reason })
            ==> spec_wait_step(input) == Some(DelegationWaitOutcome::Rejected(reason)),
        input matches WaitInput::Event(DelegationEvent::TimeoutPartial { partial_quality })
            ==> spec_wait_step(input) == Some(DelegationWaitOutcome::TimeoutPartial(partial_quality)),
        (input is SubscribeFailed || input is DeadlineReached || input is TimedOut)
            ==> spec_wait_step(input) == Some(DelegationWaitOutcome::Timeout),
{
}

/// The kind of a mode, without its settings.
#[derive(Debug, Clone, Copy, PartialEq, Eq, Structural)]
pub enum ModeKind {
    Route,
    Broadcast,
    Coordinate,
    Tasks,
}

pub open spec fn kind_of(h: TeamModeHandler) -> ModeKind {
    match h {
        TeamModeHandler::Route(_) => ModeKind::Route,
        TeamModeHandler::Broadcast(_) => ModeKind::Broadcast,
        TeamModeHandler::Coordinate(_) => ModeKind::Coordinate,
        TeamModeHandler::Tasks(_) => ModeKind::Tasks,
    }
}

/// One delegation that a mode makes: to which candidate, and for a subtask, its goal.
pub struct Assignment {
    pub member_index: usize,
    pub subtask: Option<String>,
}

pub struct AssignmentView {
    pub member_index: nat,
    pub subtask: Option<Seq<char>>,
}

impl View for Assignment {
    type V = AssignmentView;

    open spec fn view(&self) -> AssignmentView {
        AssignmentView {
            member_index: self.member_index as nat,
            subtask: match self.subtask { Some(s) => Some(s@), None => None },
        }
    }
}

pub open spec fn min_nat(a: nat, b: nat) -> nat {
    if a <= b { a } else { b }
}

/// The delegations a mode makes for `n` candidates and a goal, in order: route hands
/// the task to the first candidate; broadcast to every candidate; coordinate runs
/// one round per candidate up to its maximum; tasks hands out at most its maximum
/// of the goal's subtasks, candidates taken in turn. No candidates, no delegations.
pub open spec fn spec_assignments(h: TeamModeHandler, n: nat, goal: Seq<char>) -> Seq<AssignmentView> {
    if n == 0 {
        seq![]
    } else {
        match h {
            TeamModeHandler::Route(_) => seq![AssignmentView { member_index: 0, subtask: None }],
            TeamModeHandler::Broadcast(_) => Seq::new(n, |i: int| AssignmentView { member_index: i as nat, subtask: None }),
            TeamModeHandler::Coordinate(c) => Seq::new(min_nat(n, c.max_rounds as nat),
                |i: int| AssignmentView { member_index: (i % (n as int)) as nat, subtask: None }),
            TeamModeHandler::Tasks(t) => {
                let subtasks = spec_decompose(goal);
                Seq::new(min_nat(subtasks.len(), t.max_parallel_tasks as nat),
                    |i: int| AssignmentView { member_index: (i % (n as int)) as nat, subtask: Some(subtasks[i]) })
            },
        }
    }
}

impl TeamModeHandler {
    pub fn kind(&self) -> (k: ModeKind)
        ensures
            k == kind_of(*self),
    {
        match self {
            TeamModeHandler::Route(_) => ModeKind::Route,
            TeamModeHandler::Broadcast(_) => ModeKind::Broadcast,
            TeamModeHandler::Coordinate(_) => ModeKind::Coordinate,
            TeamModeHandler::Tasks(_) => ModeKind::Tasks,
        }
    }

    /// The delegations this mode makes for `candidates` candidates and `goal`.
    pub fn assignments(&self, candidates: usize, goal: &str) -> (v: Vec<Assignment>)
        ensures
            v@.len() == spec_assignments(*self, candidates as nat, goal@).len(),
            forall|k: int| 0 <= k < v@.len() ==> #[trigger] v@[k]@ == spec_assignments(*self, candidates as nat, goal@)[k],
    {
        let mut v: Vec<Assignment> = Vec::new();
        if candidates == 0 {
            return v;
        }
        match self {
            TeamModeHandler::Route(_) => {
                v.push(Assignment { member_index: 0, subtask: None });
            },
            TeamModeHandler::Broadcast(_) => {
                let mut i: usize = 0;
                while i < candidates
                    invariant
                        i <= candidates,
                        v@.len() == i,
                        forall|k: int| 0 <= k < i ==> #[trigger] v@[k]@ == (AssignmentView { member_index: k as nat, subtask: None }),
                    decreases candidates - i,
                {
                    v.push(Assignment { member_index: i, subtask: None });
                    i = i + 1;
                }
            },
            TeamModeHandler::Coordinate(c) => {
                let rounds = if candidates <= c.max_rounds { candidates } else { c.max_rounds };
                let mut i: usize = 0;
                while i < rounds
                    invariant
                        i <= rounds,
                        candidates > 0,
                        v@.len() == i,
                        forall|k: int| 0 <= k < i ==> #[trigger] v@[k]@
                            == (AssignmentView { member_index: (k % (candidates as int)) as nat, subtask: None }),
                    decreases rounds - i,
                {
                    v.push(Assignment { member_index: i % candidates, subtask: None });
                    i = i + 1;
                }
            },
            TeamModeHandler::Tasks(t) => {
                let subtasks = t.decompose_task(goal);
                let count = if subtasks.len() <= t.max_parallel_tasks { subtasks.len() } else { t.max_parallel_tasks };
                let mut i: usize = 0;
                while i < count
                    invariant
                        i <= count <= subtasks@.len(),
                        candidates > 0,
                        v@.len() == i,
                        subtasks@.len() == spec_decompose(goal@).len(),
                        forall|k: int| 0 <= k < subtasks@.len() ==> #[trigger] subtasks@[k]@ == spec_decompose(goal@)[k],
                        forall|k: int| 0 <= k < i ==> #[trigger] v@[k]@
                            == (AssignmentView { member_index: (k % (candidates as int)) as nat, subtask: Some(spec_decompose(goal@)[k]) }),
                    decreases count - i,
                {
                    v.push(Assignment { member_index: i % candidates, subtask: Some(subtasks[i].clone()) });
                    i = i + 1;
                }
            },
        }
        v
    }
}

/// The kind of an outcome, without its details.
#[derive(Debug, Clone, Copy, PartialEq, Eq, Structural)]
pub enum OutcomeKind {
    Completed,
    Failed,
    Rejected,
    TimeoutPartial,
    Timeout,
}

pub open spec fn outcome_kind(o: DelegationWaitOutcome) -> OutcomeKind {
    match o {
        DelegationWaitOutcome::Completed => OutcomeKind::Completed,
        DelegationWaitOutcome::Failed(_) => OutcomeKind::Failed,
        DelegationWaitOutcome::Rejected(_) => OutcomeKind::Rejected,
        DelegationWaitOutcome::TimeoutPartial(_) => OutcomeKind::TimeoutPartial,
        DelegationWaitOutcome::Timeout => OutcomeKind::Timeout,
    }
}

/// The team event that follows an outcome.
pub enum FollowUp {
    DelegationAccepted,
    MemberResultReceived,
    DelegationRejected { reason: String },
}

/// What a mode does with an outcome: the status it records for the delegation,
/// the event it emits, whether the delegation counts as failed, and whether the
/// mode stops there.
pub struct OutcomeStep {
    pub status: String,
    pub follow_up: Option<FollowUp>,
    pub failed: bool,
    pub stop: bool,
}

/// The status recorded for a delegation after its outcome: route and broadcast keep
/// rejections and partial timeouts apart; coordinate and tasks record them as
/// failures and timeouts.
pub open spec fn outcome_status(k: ModeKind, o: OutcomeKind) -> Seq<char> {
    match o {
        OutcomeKind::Completed => "ACCEPTED"@,
        OutcomeKind::Failed => "FAILED"@,
        OutcomeKind::Rejected => if k == ModeKind::Route || k == ModeKind::Broadcast { "REJECTED"@ } else { "FAILED"@ },
        OutcomeKind::TimeoutPartial => if k == ModeKind::Route || k == ModeKind::Broadcast { "TIMEOUT_PARTIAL"@ } else { "TIMEOUT"@ },
        OutcomeKind::Timeout => "TIMEOUT"@,
    }
}

/// The event emitted after an outcome: acceptance after completion; a received
/// result after a failure (and, in coordinate and tasks, after a rejection); a
/// rejection event in route (with the member's reason) and broadcast (with
/// "member rejected"); nothing after a timeout.
pub open spec fn outcome_follow_up(k: ModeKind, o: DelegationWaitOutcome) -> Option<(int, Seq<char>)> {
    // 0: accepted, 1: result received, 2: rejected with the reason text
    match o {
        DelegationWaitOutcome::Completed => Some((0int, seq![])),
        DelegationWaitOutcome::Failed(_) => Some((1int, seq![])),
        DelegationWaitOutcome::Rejected(r) => if k == ModeKind::Route {
            Some((2int, r@))
        } else if k == ModeKind::Broadcast {
            Some((2int, "member rejected"@))
        } else {
            Some((1int, seq![]))
        },
        DelegationWaitOutcome::TimeoutPartial(_) | DelegationWaitOutcome::Timeout => None,
    }
}

pub open spec fn follow_up_view(f: Option<FollowUp>) -> Option<(int, Seq<char>)> {
    match f {
        Some(FollowUp::DelegationAccepted) => Some((0int, seq![])),
        Some(FollowUp::MemberResultReceived) => Some((1int, seq![])),
        Some(FollowUp::DelegationRejected { reason }) => Some((2int, reason@)),
        None => None,
    }
}

/// Decides what a mode does with one delegation's outcome. Only coordinate stops,
/// and only at an outcome other than completion.
pub fn handle_outcome(k: ModeKind, o: &DelegationWaitOutcome) -> (step: OutcomeStep)
    ensures
        step.status@ == outcome_status(k, outcome_kind(*o)),
        follow_up_view(step.follow_up) == outcome_follow_up(k, *o),
        step.failed == (outcome_kind(*o) != OutcomeKind::Completed),
        step.stop == (k == ModeKind::Coordinate && outcome_kind(*o) != OutcomeKind::Completed),
{
    let keeps_apart = k == ModeKind::Route || k == ModeKind::Broadcast;
    let stop_on_failure = k == ModeKind::Coordinate;
    match o {
        DelegationWaitOutcome::Completed => OutcomeStep {
            status: String::from_str("ACCEPTED"),
            follow_up: Some(FollowUp::DelegationAccepted),
            failed: false,
            stop: false,
        },
        DelegationWaitOutcome::Failed(_) => OutcomeStep {
            status: String::from_str("FAILED"),
            follow_up: Some(FollowUp::MemberResultReceived),
            failed: true,
            stop: stop_on_failure,
        },
        DelegationWaitOutcome::Rejected(reason) => {
            let follow_up = if k == ModeKind::Route {
                FollowUp::DelegationRejected { reason: reason.clone() }
            } else if k == ModeKind::Broadcast {
                FollowUp::DelegationRejected { reason: String::from_str("member rejected") }
            } else {
                FollowUp::MemberResultReceived
            };
            OutcomeStep {
                status: if keeps_apart { String::from_str("REJECTED") } else { String::from_str("FAILED") },
                follow_up: Some(follow_up),
                failed: true,
                stop: stop_on_failure,
            }
        },
        DelegationWaitOutcome::TimeoutPartial(_) => OutcomeStep {
            status: if keeps_apart { String::from_str("TIMEOUT_PARTIAL") } else { String::from_str("TIMEOUT") },
            follow_up: None,
            failed: true,
            stop: stop_on_failure,
        },
        DelegationWaitOutcome::Timeout => OutcomeStep {
            status: String::from_str("TIMEOUT"),
            follow_up: None,
            failed: true,
            stop: stop_on_failure,
        },
    }
}

/// What running a mode gave.
pub struct ModeExecutionResult {
    pub success: bool,
    pub summary: String,
    pub delegation_ids: Vec<u128>,
    pub published_artifact_ids: Vec<u128>,
}

/// The summary of a mode that had no candidates.
pub open spec fn no_candidates_summary(k: ModeKind) -> Seq<char> {
    match k {
        ModeKind::Route => "No candidates available for route mode"@,
        ModeKind::Broadcast => "No candidates for broadcast"@,
        ModeKind::Coordinate => "No candidates for coordinate mode"@,
        ModeKind::Tasks => "No candidates for tasks mode"@,
    }
}

/// The result of a mode that had no candidates: a failure, with nothing delegated.
pub fn no_candidates_result(k: ModeKind) -> (r: ModeExecutionResult)
    ensures
        !r.success,
        r.summary@ == no_candidates_summary(k),
        r.delegation_ids@.len() == 0,
        r.published_artifact_ids@.len() == 0,
{
    let summary = match k {
        ModeKind::Route => String::from_str("No candidates available for route mode"),
        ModeKind::Broadcast => String::from_str("No candidates for broadcast"),
        ModeKind::Coordinate => String::from_str("No candidates for coordinate mode"),
        ModeKind::Tasks => String::from_str("No candidates for tasks mode"),
    };
    ModeExecutionResult { success: false, summary, delegation_ids: Vec::new(), published_artifact_ids: Vec::new() }
}

/// The decision that route mode records after an outcome (none after a timeout).
pub open spec fn route_decision_text(o: DelegationWaitOutcome, role: Seq<char>, goal: Seq<char>) -> Option<Seq<char>> {
    match o {
        DelegationWaitOutcome::Completed => Some("Route completed via member "@ + role + " for task: "@ + goal),
        DelegationWaitOutcome::Failed(e) => Some("Route failed via member "@ + role + " for task: "@ + goal + " - "@ + e@),
        DelegationWaitOutcome::Rejected(r) => Some("Route rejected by member "@ + role + " for task: "@ + goal + " - "@ + r@),
        _ => None,
    }
}

/// The summary of a route run after its one outcome. A partial timeout shows
/// `partial_quality_text`, the caller's rendering of the partial quality.
pub open spec fn route_summary_text(o: DelegationWaitOutcome, role: Seq<char>, delegation_id: u128, partial_quality_text: Seq<char>) -> Seq<char> {
    match o {
        DelegationWaitOutcome::Completed => "Route completed via member "@ + role + " (delegation: "@ + uuid_string(delegation_id) + ")"@,
        DelegationWaitOutcome::Failed(e) => "Delegation failed: "@ + e@,
        DelegationWaitOutcome::Rejected(r) => "Delegation rejected: "@ + r@,
        DelegationWaitOutcome::Timeout => "Delegation timed out"@,
        DelegationWaitOutcome::TimeoutPartial(_) => "Delegation timed out with partial quality: "@ + partial_quality_text,
    }
}

pub fn route_decision(o: &DelegationWaitOutcome, role: &str, goal: &str) -> (d: Option<String>)
    ensures
        match route_decision_text(*o, role@, goal@) {
            Some(t) => d matches Some(s) && s@ == t,
            None => d is None,
        },
{
    let d = match o {
        DelegationWaitOutcome::Completed => {
            let parts = ["Route completed via member ", role, " for task: ", goal];
            Some(concat_strs(&parts))
        },
        DelegationWaitOutcome::Failed(e) => {
            let parts = ["Route failed via member ", role, " for task: ", goal, " - ", e.as_str()];
            Some(concat_strs(&parts))
        },
        DelegationWaitOutcome::Rejected(r) => {
            let parts = ["Route rejected by member ", role, " for task: ", goal, " - ", r.as_str()];
            Some(concat_strs(&parts))
        },
        _ => None,
    };
    proof { reveal_with_fuel(concat_views, 7); }
    d
}

/// The result of a route run: it succeeds exactly when the delegation completed.
pub fn route_result(o: &DelegationWaitOutcome, role: &str, delegation_id: u128, partial_quality_text: &str) -> (r: ModeExecutionResult)
    ensures
        r.success == (outcome_kind(*o) == OutcomeKind::Completed),
        r.summary@ == route_summary_text(*o, role@, delegation_id, partial_quality_text@),
        r.delegation_ids@ == seq![delegation_id],
        r.published_artifact_ids@.len() == 0,
{
    let summary = match o {
        DelegationWaitOutcome::Completed => {
            let id = uuid_text(delegation_id);
            let parts = ["Route completed via member ", role, " (delegation: ", id.as_str(), ")"];
            concat_strs(&parts)
        },
        DelegationWaitOutcome::Failed(e) => {
            let parts = ["Delegation failed: ", e.as_str()];
            concat_strs(&parts)
        },
        DelegationWaitOutcome::Rejected(reason) => {
            let parts = ["Delegation rejected: ", reason.as_str()];
            concat_strs(&parts)
        },
        DelegationWaitOutcome::Timeout => String::from_str("Delegation timed out"),
        DelegationWaitOutcome::TimeoutPartial(_) => {
            let parts = ["Delegation timed out with partial quality: ", partial_quality_text];
            concat_strs(&parts)
        },
    };
    proof { reveal_with_fuel(concat_views, 6); }
    let success = match o {
        DelegationWaitOutcome::Completed => true,
        _ => false,
    };
    let mut ids: Vec<u128> = Vec::new();
    ids.push(delegation_id);
    assert(ids@ =~= seq![delegation_id]);
    ModeExecutionResult { success, summary, delegation_ids: ids, published_artifact_ids: Vec::new() }
}

/// How many of the outcomes were completions.
pub open spec fn completed_count(os: Seq<OutcomeKind>) -> nat
    decreases os.len(),
{
    if os.len() == 0 { 0 } else { completed_count(os.drop_last()) + if os.last() == OutcomeKind::Completed { 1nat } else { 0nat } }
}

/// How many of the outcomes were not completions.
pub open spec fn failed_count(os: Seq<OutcomeKind>) -> nat
    decreases os.len(),
{
    if os.len() == 0 { 0 } else { failed_count(os.drop_last()) + if os.last() != OutcomeKind::Completed { 1nat } else { 0nat } }
}

/// A running count of a mode's outcomes.
pub struct ModeTally {
    pub delegations: usize,
    pub accepted: usize,
    pub failed: usize,
}

pub open spec fn tally_of(os: Seq<OutcomeKind>) -> (nat, nat, nat) {
    (os.len(), completed_count(os), failed_count(os))
}

impl ModeTally {
    pub fn new() -> (t: ModeTally)
        ensures
            (t.delegations as nat, t.accepted as nat, t.failed as nat) == tally_of(seq![]),
    {
        ModeTally { delegations: 0, accepted: 0, failed: 0 }
    }

    /// Counts one more outcome.
    pub fn record(&mut self, o: OutcomeKind)
        requires
            old(self).delegations < usize::MAX,
            old(self).accepted <= old(self).delegations,
            old(self).failed <= old(self).delegations,
        ensures
            final(self).delegations == old(self).delegations + 1,
            final(self).accepted == old(self).accepted + if o == OutcomeKind::Completed { 1int } else { 0int },
            final(self).failed == old(self).failed + if o != OutcomeKind::Completed { 1int } else { 0int },
    {
        self.delegations = self.delegations + 1;
        if o == OutcomeKind::Completed {
            self.accepted = self.accepted + 1;
        } else {
            self.failed = self.failed + 1;
        }
    }
}

/// Every outcome is either a completion or a failure, and a mode that counts its
/// outcomes succeeds (no failures) exactly when every delegation completed.
pub proof fn lemma_tally_accounts_for_every_outcome(os: Seq<OutcomeKind>)
    ensures
        completed_count(os) + failed_count(os) == os.len(),
        failed_count(os) == 0 <==> forall|i: int| 0 <= i < os.len() ==> os[i] == OutcomeKind::Completed,
    decreases os.len(),
{
    if os.len() > 0 {
        lemma_tally_accounts_for_every_outcome(os.drop_last());
        if failed_count(os) == 0 {
            assert forall|i: int| 0 <= i < os.len() implies os[i] == OutcomeKind::Completed by {
                if i < os.len() - 1 {
                    assert(os.drop_last()[i] == os[i]);
                }
            }
        }
        if forall|i: int| 0 <= i < os.len() ==> os[i] == OutcomeKind::Completed {
            assert forall|i: int| 0 <= i < os.drop_last().len() implies os.drop_last()[i] == OutcomeKind::Completed by {
                assert(os.drop_last()[i] == os[i]);
            }
        }
    }
}

/// The summary of a broadcast run.
pub open spec fn broadcast_summary_text(accepted: nat, total: nat, failed: nat) -> Seq<char> {
    "Broadcast completed with "@ + spec_decimal(accepted) + "/"@ + spec_decimal(total) + " accepted, "@
        + spec_decimal(failed) + "/"@ + spec_decimal(total) + " failed"@
}

/// The decision that closes a broadcast run.
pub open spec fn broadcast_decision_text(accepted: nat, total: nat, failed: nat, goal: Seq<char>) -> Seq<char> {
    "Broadcast completed: "@ + spec_decimal(accepted) + "/"@ + spec_decimal(total) + " accepted, "@
        + spec_decimal(failed) + "/"@ + spec_decimal(total) + " failed for task: "@ + goal
}

pub fn broadcast_decision(t: &ModeTally, goal: &str) -> (d: String)
    ensures
        d@ == broadcast_decision_text(t.accepted as nat, t.delegations as nat, t.failed as nat, goal@),
{
    let a = num_text(t.accepted);
    let n = num_text(t.delegations);
    let f = num_text(t.failed);
    let parts = ["Broadcast completed: ", a.as_str(), "/", n.as_str(), " accepted, ", f.as_str(), "/", n.as_str(),
        " failed for task: ", goal];
    let d = concat_strs(&parts);
    proof { reveal_with_fuel(concat_views, 11); }
    d
}

/// The result of a broadcast run: it succeeds when nothing failed.
pub fn broadcast_result(t: &ModeTally, delegation_ids: Vec<u128>) -> (r: ModeExecutionResult)
    ensures
        r.success == (t.failed == 0),
        r.summary@ == broadcast_summary_text(t.accepted as nat, t.delegations as nat, t.failed as nat),
        r.delegation_ids@ == delegation_ids@,
        r.published_artifact_ids@.len() == 0,
{
    let a = num_text(t.accepted);
    let n = num_text(t.delegations);
    let f = num_text(t.failed);
    let parts = ["Broadcast completed with ", a.as_str(), "/", n.as_str(), " accepted, ", f.as_str(), "/", n.as_str(), " failed"];
    let summary = concat_strs(&parts);
    proof { reveal_with_fuel(concat_views, 10); }
    ModeExecutionResult { success: t.failed == 0, summary, delegation_ids, published_artifact_ids: Vec::new() }
}

/// The decision that opens a coordinate run.
pub open spec fn coordinate_start_text(goal: Seq<char>, rounds: nat) -> Seq<char> {
    "Starting coordination for task: "@ + goal + " with "@ + spec_decimal(rounds) + " rounds"@
}

/// The decision recorded at the start of each coordination round.
pub open spec fn coordinate_round_text(round: nat, role: Seq<char>) -> Seq<char> {
    "Coordination round "@ + spec_decimal(round) + ": delegating to "@ + role
}

/// The decision that closes a coordinate run.
pub open spec fn coordinate_final_text(rounds: nat, failed: nat, goal: Seq<char>) -> Seq<char> {
    "Coordinate mode completed: "@ + spec_decimal(rounds) + " rounds ("@ + spec_decimal(failed) + " failed) for task: "@ + goal
}

/// The summary of a coordinate run, which reports the planned number of rounds.
pub open spec fn coordinate_summary_text(rounds: nat, failed: nat) -> Seq<char> {
    "Coordinate mode completed with "@ + spec_decimal(rounds) + " rounds ("@ + spec_decimal(failed) + " failed)"@
}

pub fn coordinate_start_decision(goal: &str, rounds: usize) -> (d: String)
    ensures
        d@ == coordinate_start_text(goal@, rounds as nat),
{
    let r = num_text(rounds);
    let parts = ["Starting coordination for task: ", goal, " with ", r.as_str(), " rounds"];
    let d = concat_strs(&parts);
    proof { reveal_with_fuel(concat_views, 6); }
    d
}

pub fn coordinate_round_decision(round: usize, role: &str) -> (d: String)
    ensures
        d@ == coordinate_round_text(round as nat, role@),
{
    let r = num_text(round);
    let parts = ["Coordination round ", r.as_str(), ": delegating to ", role];
    let d = concat_strs(&parts);
    proof { reveal_with_fuel(concat_views, 5); }
    d
}

pub fn coordinate_final_decision(rounds: usize, failed: usize, goal: &str) -> (d: String)
    ensures
        d@ == coordinate_final_text(rounds as nat, failed as nat, goal@),
{
    let r = num_text(rounds);
    let f = num_text(failed);
    let parts = ["Coordinate mode completed: ", r.as_str(), " rounds (", f.as_str(), " failed) for task: ", goal];
    let d = concat_strs(&parts);
    proof { reveal_with_fuel(concat_views, 7); }
    d
}

/// The result of a coordinate run: it succeeds when no round failed.
pub fn coordinate_result(rounds: usize, failed: usize, delegation_ids: Vec<u128>) -> (r: ModeExecutionResult)
    ensures
        r.success == (failed == 0),
        r.summary@ == coordinate_summary_text(rounds as nat, failed as nat),
        r.delegation_ids@ == delegation_ids@,
        r.published_artifact_ids@.len() == 0,
{
    let rs = num_text(rounds);
    let f = num_text(failed);
    let parts = ["Coordinate mode completed with ", rs.as_str(), " rounds (", f.as_str(), " failed)"];
    let summary = concat_strs(&parts);
    proof { reveal_with_fuel(concat_views, 6); }
    ModeExecutionResult { success: failed == 0, summary, delegation_ids, published_artifact_ids: Vec::new() }
}

/// The decision that opens a tasks run.
pub open spec fn tasks_start_text(count: nat, goal: Seq<char>) -> Seq<char> {
    "Starting task decomposition: "@ + spec_decimal(count) + " subtasks for goal: "@ + goal
}

/// The decision recorded before each subtask is delegated (numbered from one).
pub open spec fn tasks_item_text(number: nat, subtask: Seq<char>, role: Seq<char>) -> Seq<char> {
    "Task "@ + spec_decimal(number) + ": delegating '"@ + subtask + "' to "@ + role
}

/// The decision that closes a tasks run.
pub open spec fn tasks_final_text(count: nat, failed: nat, goal: Seq<char>) -> Seq<char> {
    "Task decomposition completed: "@ + spec_decimal(count) + " delegations ("@ + spec_decimal(failed) + " failed) for goal: "@ + goal
}

/// The summary of a tasks run.
pub open spec fn tasks_summary_text(count: nat, failed: nat) -> Seq<char> {
    "Tasks mode completed: "@ + spec_decimal(count) + " subtasks delegated ("@ + spec_decimal(failed) + " failed)"@
}

pub fn tasks_start_decision(count: usize, goal: &str) -> (d: String)
    ensures
        d@ == tasks_start_text(count as nat, goal@),
{
    let c = num_text(count);
    let parts = ["Starting task decomposition: ", c.as_str(), " subtasks for goal: ", goal];
    let d = concat_strs(&parts);
    proof { reveal_with_fuel(concat_views, 5); }
    d
}

pub fn tasks_item_decision(number: usize, subtask: &str, role: &str) -> (d: String)
    ensures
        d@ == tasks_item_text(number as nat, subtask@, role@),
{
    let n = num_text(number);
    let parts = ["Task ", n.as_str(), ": delegating '", subtask, "' to ", role];
    let d = concat_strs(&parts);
    proof { reveal_with_fuel(concat_views, 7); }
    d
}

pub fn tasks_final_decision(count: usize, failed: usize, goal: &str) -> (d: String)
    ensures
        d@ == tasks_final_text(count as nat, failed as nat, goal@),
{
    let c = num_text(count);
    let f = num_text(failed);
    let parts = ["Task decomposition completed: ", c.as_str(), " delegations (", f.as_str(), " failed) for goal: ", goal];
    let d = concat_strs(&parts);
    proof { reveal_with_fuel(concat_views, 7); }
    d
}

/// The result of a tasks run: it succeeds when no subtask failed.
pub fn tasks_result(t: &ModeTally, delegation_ids: Vec<u128>) -> (r: ModeExecutionResult)
    ensures
        r.success == (t.failed == 0),
        r.summary@ == tasks_summary_text(t.delegations as nat, t.failed as nat),
        r.delegation_ids@ == delegation_ids@,
        r.published_artifact_ids@.len() == 0,
{
    let c = num_text(t.delegations);
    let f = num_text(t.failed);
    let parts = ["Tasks mode completed: ", c.as_str(), " subtasks delegated (", f.as_str(), " failed)"];
    let summary = concat_strs(&parts);
    proof { reveal_with_fuel(concat_views, 6); }
    ModeExecutionResult { success: t.failed == 0, summary, delegation_ids, published_artifact_ids: Vec::new() }
}

} // verus!
