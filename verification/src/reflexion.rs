//! Reflexion: which logs a failure is reflected on, the rule a confident
//! reflection is stored as, and how rules found by query join the experiences
//! already retrieved. Scores are floating point and stay with the caller.

use vstd::prelude::*;
use crate::ids::{uuid_string, uuid_text};
use crate::text::{join2, join3};

verus! {

/// What to retrieve experience for: a task, an optional rule category and how
/// many experiences at most.
pub struct ExperienceQuery {
    pub task_description: String,
    pub category: Option<String>,
    pub limit: usize,
}

/// The logs of a plan's other tasks, in order: the context for reflecting on the
/// failure of `failed_task_id`.
pub fn context_logs(log_task_ids: &[u128], failed_task_id: u128) -> (r: Vec<usize>)
    ensures
        r@.map_values(|k: usize| k as int) == Seq::new(log_task_ids@.len(), |k: int| k).filter(
            |k: int| log_task_ids@[k] != failed_task_id,
        ),
{
    let ghost all = Seq::new(log_task_ids@.len(), |k: int| k);
    let ghost pred = |k: int| log_task_ids@[k] != failed_task_id;
    let mut r: Vec<usize> = Vec::new();
    let mut i: usize = 0;
    while i < log_task_ids.len()
        invariant
            i <= log_task_ids@.len(),
            all == Seq::new(log_task_ids@.len(), |k: int| k),
            pred == (|k: int| log_task_ids@[k] != failed_task_id),
            r@.map_values(|k: usize| k as int) == all.take(i as int).filter(pred),
        decreases log_task_ids@.len() - i,
    {
        proof {
            let pre = all.take(i as int);
            assert(all.take(i + 1) =~= pre.push(i as int));
            reveal(Seq::filter);
            assert(pre.push(i as int).drop_last() =~= pre);
        }
        if log_task_ids[i] != failed_task_id {
            r.push(i);
        }
        assert(r@.map_values(|k: usize| k as int) =~= all.take(i + 1).filter(pred));
        i = i + 1;
    }
    assert(all.take(log_task_ids@.len() as int) =~= all);
    r
}

/// The name of the rule that a plan's reflection is stored as.
pub fn reflection_rule_name(plan_id: u128) -> (s: String)
    ensures
        s@ == "reflection-"@ + uuid_string(plan_id),
{
    let id = uuid_text(plan_id);
    join2("reflection-", id.as_str())
}

/// The category that reflection rules are stored under, and their priority.
pub fn reflection_rule_category() -> (c: (&'static str, i32))
    ensures
        c.0@ == "execution"@,
        c.1 == 5,
{
    ("execution", 5)
}

/// The lessons of a reflection joined by single spaces.
pub open spec fn spaced(ls: Seq<Seq<char>>) -> Seq<char>
    decreases ls.len(),
{
    if ls.len() == 0 {
        seq![]
    } else if ls.len() == 1 {
        ls[0]
    } else {
        spaced(ls.drop_last()) + " "@ + ls.last()
    }
}

/// The text a reflection rule's embedding is made from: the root cause, a colon,
/// and the lessons.
pub fn reflection_embedding_text(root_cause: &str, lessons: &Vec<String>) -> (s: String)
    ensures
        s@ == root_cause@ + ": "@ + spaced(lessons@.map_values(|l: String| l@)),
{
    let ghost ls = lessons@.map_values(|l: String| l@);
    let mut joined = String::new();
    let mut i: usize = 0;
    while i < lessons.len()
        invariant
            i <= lessons@.len(),
            ls == lessons@.map_values(|l: String| l@),
            joined@ == spaced(ls.take(i as int)),
        decreases lessons@.len() - i,
    {
        assert(ls.take(i + 1).drop_last() =~= ls.take(i as int));
        if i > 0 {
            joined.append(" ");
        }
        joined.append(lessons[i].as_str());
        i = i + 1;
    }
    assert(ls.take(lessons@.len() as int) =~= ls);
    join3(root_cause, ": ", joined.as_str())
}

/// Whether the queried rule at `q` joins the experiences: its id is among neither
/// the experiences' rule ids nor the rules queried before it.
pub open spec fn joins(experience_rule_ids: Seq<Option<u128>>, queried_rule_ids: Seq<u128>, q: int) -> bool {
    !experience_rule_ids.contains(Some(queried_rule_ids[q])) && !queried_rule_ids.take(q).contains(queried_rule_ids[q])
}

fn contains_rule(ids: &[Option<u128>], id: u128) -> (b: bool)
    ensures
        b == ids@.contains(Some(id)),
{
    let mut e: usize = 0;
    while e < ids.len()
        invariant
            e <= ids@.len(),
            forall|k: int| 0 <= k < e ==> ids@[k] != Some(id),
        decreases ids@.len() - e,
    {
        if ids[e] == Some(id) {
            assert(ids@[e as int] == Some(id));
            return true;
        }
        e = e + 1;
    }
    false
}

fn queried_before(ids: &[u128], q: usize) -> (b: bool)
    requires
        q < ids@.len(),
    ensures
        b == ids@.take(q as int).contains(ids@[q as int]),
{
    let mut p: usize = 0;
    while p < q
        invariant
            q < ids@.len(),
            p <= q,
            forall|k: int| 0 <= k < p ==> ids@[k] != ids@[q as int],
        decreases q - p,
    {
        if ids[p] == ids[q] {
            assert(ids@.take(q as int)[p as int] == ids@[q as int]);
            return true;
        }
        p = p + 1;
    }
    proof {
        if ids@.take(q as int).contains(ids@[q as int]) {
            let k = choose|k: int| 0 <= k < q && ids@.take(q as int)[k] == ids@[q as int];
            assert(ids@[k] == ids@[q as int]);
        }
    }
    false
}

/// Which queried rules join the retrieved experiences, in order: each rule whose id
/// is among neither the experiences' rule ids nor the rules already joined, so
/// that a rule listed twice joins once.
pub fn new_rules(experience_rule_ids: &[Option<u128>], queried_rule_ids: &[u128]) -> (r: Vec<usize>)
    ensures
        r@.map_values(|k: usize| k as int) == Seq::new(queried_rule_ids@.len(), |k: int| k).filter(
            |k: int| joins(experience_rule_ids@, queried_rule_ids@, k),
        ),
{
    let ghost all = Seq::new(queried_rule_ids@.len(), |k: int| k);
    let ghost pred = |k: int| joins(experience_rule_ids@, queried_rule_ids@, k);
    let mut r: Vec<usize> = Vec::new();
    let mut q: usize = 0;
    while q < queried_rule_ids.len()
        invariant
            q <= queried_rule_ids@.len(),
            all == Seq::new(queried_rule_ids@.len(), |k: int| k),
            pred == (|k: int| joins(experience_rule_ids@, queried_rule_ids@, k)),
            r@.map_values(|k: usize| k as int) == all.take(q as int).filter(pred),
        decreases queried_rule_ids@.len() - q,
    {
        proof {
            let pre = all.take(q as int);
            assert(all.take(q + 1) =~= pre.push(q as int));
            reveal(Seq::filter);
            assert(pre.push(q as int).drop_last() =~= pre);
        }
        let id = queried_rule_ids[q];
        if !contains_rule(experience_rule_ids, id) && !queried_before(queried_rule_ids, q) {
            r.push(q);
        }
        assert(r@.map_values(|k: usize| k as int) =~= all.take(q + 1).filter(pred));
        q = q + 1;
    }
    assert(all.take(queried_rule_ids@.len() as int) =~= all);
    r
}

/// The experiences kept once they are ordered by relevance: the first `limit`.
pub fn limit_experiences<T>(experiences: &mut Vec<T>, limit: usize)
    ensures
        final(experiences)@ == old(experiences)@.take(
            if limit <= old(experiences)@.len() { limit as int } else { old(experiences)@.len() as int },
        ),
{
    experiences.truncate(limit);
    assert(old(experiences)@.take(old(experiences)@.len() as int) =~= old(experiences)@);
}

/// The sources of retrieved experiences.
pub fn experience_sources() -> (s: (&'static str, &'static str))
    ensures
        s.0@ == "rule"@,
        s.1@ == "memory"@,
{
    ("rule", "memory")
}

/// The rules and memory that reflexion reads and writes, the embedding generator
/// (if one is configured) and the language model it reflects with.
pub struct ReflexionService<R, E, L> {
    ephemeral_log_repo: R,
    rule_repo: R,
    memory_repo: R,
    embedding: Option<E>,
    llm: L,
}

impl<R, E, L> ReflexionService<R, E, L> {
    pub closed spec fn parts(&self) -> (R, R, R, Option<E>, L) {
        (self.ephemeral_log_repo, self.rule_repo, self.memory_repo, self.embedding, self.llm)
    }

    pub fn new(ephemeral_log_repo: R, rule_repo: R, memory_repo: R, embedding: Option<E>, llm: L) -> (s: Self)
        ensures
            s.parts() == (ephemeral_log_repo, rule_repo, memory_repo, embedding, llm),
    {
        ReflexionService { ephemeral_log_repo, rule_repo, memory_repo, embedding, llm }
    }

    /// Whether similar rules and memories can be searched (and rules embedded).
    pub fn has_embedding(&self) -> (b: bool)
        ensures
            b == self.parts().3 is Some,
    {
        self.embedding.is_some()
    }
}

} // verus!
