//! Which handler replays which event type during recovery, and what the built-in
//! handlers do with an event.

use vstd::prelude::*;
use crate::recovery::AgentInstanceStatus;
use crate::text::{chars_equal, chars_of, text_is};

verus! {

/// A replay handler: one of the built-in ones, or one that the user supplies.
pub enum ReplayHandler<H> {
    /// Sets the instance status named in the event's `to` field.
    InstanceStateChanged,
    /// Clears the instance's current task when its task completed or failed.
    TaskStateChanged,
    /// Does nothing.
    NoOp,
    Custom(H),
}

/// Handlers by event type. Registering a type again replaces its handler.
pub struct EventReplayRegistry<H> {
    entries: Vec<(String, ReplayHandler<H>)>,
}

pub open spec fn find_type<H>(es: Seq<(Seq<char>, ReplayHandler<H>)>, t: Seq<char>, i: int) -> Option<int>
    decreases es.len() - i,
{
    if i < 0 || i >= es.len() {
        None
    } else if es[i].0 == t {
        Some(i)
    } else {
        find_type(es, t, i + 1)
    }
}

/// The handler registered for event type `t`.
pub open spec fn handler_for<H>(es: Seq<(Seq<char>, ReplayHandler<H>)>, t: Seq<char>) -> Option<ReplayHandler<H>> {
    match find_type(es, t, 0) {
        Some(i) => Some(es[i].1),
        None => None,
    }
}

/// The registrations after registering `h` for `t`.
pub open spec fn registered<H>(es: Seq<(Seq<char>, ReplayHandler<H>)>, t: Seq<char>, h: ReplayHandler<H>) -> Seq<(Seq<char>, ReplayHandler<H>)> {
    match find_type(es, t, 0) {
        Some(i) => es.update(i, (t, h)),
        None => es.push((t, h)),
    }
}

proof fn lemma_find_type_found<H>(es: Seq<(Seq<char>, ReplayHandler<H>)>, t: Seq<char>, i: int)
    requires
        0 <= i,
    ensures
        find_type(es, t, i) matches Some(m) ==> i <= m < es.len() && es[m].0 == t,
        find_type(es, t, i) is None ==> forall|j: int| i <= j < es.len() ==> es[j].0 != t,
    decreases es.len() - i,
{
    if 0 <= i < es.len() && es[i].0 != t {
        lemma_find_type_found(es, t, i + 1);
    }
}

proof fn lemma_find_type_same_keys<H>(es: Seq<(Seq<char>, ReplayHandler<H>)>, fs: Seq<(Seq<char>, ReplayHandler<H>)>, u: Seq<char>, i: int)
    requires
        es.len() == fs.len(),
        forall|j: int| 0 <= j < es.len() ==> es[j].0 == fs[j].0,
    ensures
        find_type(es, u, i) == find_type(fs, u, i),
    decreases es.len() - i,
{
    if 0 <= i < es.len() && es[i].0 != u {
        lemma_find_type_same_keys(es, fs, u, i + 1);
    }
}

proof fn lemma_find_type_push<H>(es: Seq<(Seq<char>, ReplayHandler<H>)>, t: Seq<char>, h: ReplayHandler<H>, u: Seq<char>, i: int)
    requires
        0 <= i <= es.len(),
    ensures
        find_type(es.push((t, h)), u, i) == match find_type(es, u, i) {
            Some(m) => Some(m),
            None => if u == t { Some(es.len() as int) } else { None },
        },
    decreases es.len() - i,
{
    let fs = es.push((t, h));
    if i < es.len() {
        assert(fs[i] == es[i]);
        if es[i].0 != u {
            lemma_find_type_push(es, t, h, u, i + 1);
        }
    } else {
        assert(fs[i] == (t, h));
        assert(find_type(fs, u, i + 1) is None);
    }
}

/// Registering replaces: afterwards the type has the handler just registered, and
/// every other type keeps the handler it had (or still has none).
pub proof fn lemma_registered_handler<H>(es: Seq<(Seq<char>, ReplayHandler<H>)>, t: Seq<char>, h: ReplayHandler<H>, u: Seq<char>)
    ensures
        handler_for(registered(es, t, h), t) == Some(h),
        u != t ==> handler_for(registered(es, t, h), u) == handler_for(es, u),
{
    lemma_find_type_found(es, t, 0);
    match find_type(es, t, 0) {
        Some(k) => {
            let fs = es.update(k, (t, h));
            assert forall|j: int| 0 <= j < es.len() implies es[j].0 == fs[j].0 by {
                if j == k {
                }
            }
            lemma_find_type_same_keys(es, fs, t, 0);
            lemma_find_type_same_keys(es, fs, u, 0);
            lemma_find_type_found(es, u, 0);
            if let Some(m) = find_type(es, u, 0) {
                if u != t {
                    assert(m != k);
                }
            }
        },
        None => {
            lemma_find_type_push(es, t, h, t, 0);
            lemma_find_type_push(es, t, h, u, 0);
            lemma_find_type_found(es, u, 0);
            if let Some(m) = find_type(es, u, 0) {
                assert(es.push((t, h))[m] == es[m]);
            }
        },
    }
}

/// The event types that a new registry handles, with their handlers.
pub open spec fn default_registrations<H>() -> Seq<(Seq<char>, ReplayHandler<H>)> {
    seq![
        ("instance_state_changed"@, ReplayHandler::InstanceStateChanged),
        ("task_state_changed"@, ReplayHandler::TaskStateChanged),
        ("checkpoint.created"@, ReplayHandler::NoOp),
        ("task.created"@, ReplayHandler::NoOp),
        ("artifact_produced"@, ReplayHandler::NoOp),
        ("approval_requested"@, ReplayHandler::NoOp),
        ("delegation_requested"@, ReplayHandler::NoOp),
        ("resume_applied"@, ReplayHandler::NoOp),
    ]
}

impl<H> View for EventReplayRegistry<H> {
    type V = Seq<(Seq<char>, ReplayHandler<H>)>;

    closed spec fn view(&self) -> Seq<(Seq<char>, ReplayHandler<H>)> {
        Seq::new(self.entries@.len(), |i: int| (self.entries@[i].0@, self.entries@[i].1))
    }
}

impl<H> EventReplayRegistry<H> {
    /// A registry with the built-in handlers for the known event types.
    pub fn new() -> (r: EventReplayRegistry<H>)
        ensures
            r@ == default_registrations::<H>(),
    {
        let mut r = EventReplayRegistry { entries: Vec::new() };
        assert(r@ =~= Seq::<(Seq<char>, ReplayHandler<H>)>::empty());
        r.register_default_handlers();
        r
    }

    fn register_default_handlers(&mut self)
        requires
            old(self)@.len() == 0,
        ensures
            final(self)@ == default_registrations::<H>(),
    {
        self.entries.push((String::from_str("instance_state_changed"), ReplayHandler::InstanceStateChanged));
        self.entries.push((String::from_str("task_state_changed"), ReplayHandler::TaskStateChanged));
        self.entries.push((String::from_str("checkpoint.created"), ReplayHandler::NoOp));
        self.entries.push((String::from_str("task.created"), ReplayHandler::NoOp));
        self.entries.push((String::from_str("artifact_produced"), ReplayHandler::NoOp));
        self.entries.push((String::from_str("approval_requested"), ReplayHandler::NoOp));
        self.entries.push((String::from_str("delegation_requested"), ReplayHandler::NoOp));
        self.entries.push((String::from_str("resume_applied"), ReplayHandler::NoOp));
        assert(self@ =~= default_registrations::<H>());
    }

    fn find(&self, t: &[char]) -> (idx: Option<usize>)
        ensures
            match idx {
                Some(i) => i < self@.len() && find_type(self@, t@, 0) == Some(i as int),
                None => find_type(self@, t@, 0) is None,
            },
    {
        let mut i: usize = 0;
        while i < self.entries.len()
            invariant
                i <= self@.len(),
                self@.len() == self.entries@.len(),
                find_type(self@, t@, 0) == find_type(self@, t@, i as int),
            decreases self@.len() - i,
        {
            let key = chars_of(self.entries[i].0.as_str());
            if chars_equal(key.as_slice(), t) {
                return Some(i);
            }
            i = i + 1;
        }
        None
    }

    /// Registers `handler` for `event_type`, replacing any handler it had.
    pub fn register(&mut self, event_type: &str, handler: ReplayHandler<H>)
        ensures
            final(self)@ == registered(old(self)@, event_type@, handler),
    {
        let t = chars_of(event_type);
        match self.find(t.as_slice()) {
            Some(i) => {
                self.entries.set(i, (String::from_str(event_type), handler));
            },
            None => {
                self.entries.push((String::from_str(event_type), handler));
            },
        }
        assert(self@ =~= registered(old(self)@, event_type@, handler));
    }

    /// The handler for `event_type`; an event of a type without one is skipped.
    pub fn handler(&self, event_type: &str) -> (h: Option<&ReplayHandler<H>>)
        ensures
            match handler_for(self@, event_type@) {
                Some(x) => h matches Some(y) && *y == x,
                None => h is None,
            },
    {
        let t = chars_of(event_type);
        match self.find(t.as_slice()) {
            Some(i) => Some(&self.entries[i].1),
            None => None,
        }
    }
}

proof fn lemma_find_type_spec<H>(es: Seq<(Seq<char>, ReplayHandler<H>)>, t: Seq<char>, i: int)
    requires
        0 <= i,
    ensures
        find_type(es, t, i) matches Some(k) ==> i <= k < es.len() && es[k].0 == t
            && forall|m: int| i <= m < k ==> es[m].0 != t,
        find_type(es, t, i) is None ==> forall|m: int| i <= m < es.len() ==> es[m].0 != t,
    decreases es.len() - i,
{
    if i < es.len() && es[i].0 != t {
        lemma_find_type_spec(es, t, i + 1);
    }
}

/// After registering a handler for an event type, that type is replayed with it;
/// every other type keeps its handler.
pub proof fn lemma_register_then_lookup<H>(es: Seq<(Seq<char>, ReplayHandler<H>)>, t: Seq<char>, h: ReplayHandler<H>, u: Seq<char>)
    ensures
        handler_for(registered(es, t, h), t) == Some(h),
        u != t ==> handler_for(registered(es, t, h), u) == handler_for(es, u),
{
    lemma_find_type_spec(es, t, 0);
    lemma_find_type_spec(es, u, 0);
    let es2 = registered(es, t, h);
    lemma_find_type_spec(es2, t, 0);
    lemma_find_type_spec(es2, u, 0);
    match find_type(es, t, 0) {
        Some(i) => {
            if find_type(es2, t, 0) != Some(i) { assert(es2[i].0 == t); }
        },
        None => {
            assert(es2[es.len() as int].0 == t);
        },
    }
    if u != t {
        match find_type(es, u, 0) {
            Some(j) => {
                assert(es2[j].0 == u);
                if let Some(k) = find_type(es2, u, 0) {
                    if k < j { assert(es2[k] == es[k]); }
                }
            },
            None => {
                if let Some(k) = find_type(es2, u, 0) {
                    if k < es.len() { assert(es2[k] == es[k]); }
                }
            },
        }
    }
}

/// The status that an `instance_state_changed` event's `to` field sets, if it names
/// one that replay restores (a missing field counts as `Created`, which it does not).
pub open spec fn replayed_status(to: Option<Seq<char>>) -> Option<AgentInstanceStatus> {
    let t = match to { Some(s) => s, None => "Created"@ };
    if t == "Ready"@ {
        Some(AgentInstanceStatus::Ready)
    } else if t == "Running"@ {
        Some(AgentInstanceStatus::Running)
    } else if t == "Suspended"@ {
        Some(AgentInstanceStatus::Suspended)
    } else if t == "Failed"@ {
        Some(AgentInstanceStatus::Failed)
    } else if t == "Completed"@ {
        Some(AgentInstanceStatus::Completed)
    } else if t == "Cancelled"@ {
        Some(AgentInstanceStatus::Cancelled)
    } else {
        None
    }
}

/// The status to set when replaying an instance state change.
pub fn instance_state_replay(to: Option<&str>) -> (st: Option<AgentInstanceStatus>)
    ensures
        st == replayed_status(match to { Some(s) => Some(s@), None => None }),
{
    let t = match to {
        Some(s) => s,
        None => "Created",
    };
    if text_is(t, "Ready") {
        Some(AgentInstanceStatus::Ready)
    } else if text_is(t, "Running") {
        Some(AgentInstanceStatus::Running)
    } else if text_is(t, "Suspended") {
        Some(AgentInstanceStatus::Suspended)
    } else if text_is(t, "Failed") {
        Some(AgentInstanceStatus::Failed)
    } else if text_is(t, "Completed") {
        Some(AgentInstanceStatus::Completed)
    } else if text_is(t, "Cancelled") {
        Some(AgentInstanceStatus::Cancelled)
    } else {
        None
    }
}

/// Whether replaying a task state change clears the instance's current task: it
/// does when the task completed or failed (a missing `to` counts as `Created`).
pub fn task_state_replay_clears_task(to: Option<&str>) -> (clear: bool)
    ensures
        clear == match to { Some(s) => s@ == "Completed"@ || s@ == "Failed"@, None => false },
{
    match to {
        Some(s) => text_is(s, "Completed") || text_is(s, "Failed"),
        None => false,
    }
}

} // verus!
