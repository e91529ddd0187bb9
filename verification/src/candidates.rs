//! Memory candidate generation: when an execution yields candidates at all, the
//! tool-call listing given to the extractor, how its reply is unwrapped, and the
//! candidates made from what it extracted.

use vstd::prelude::*;
use crate::ids::{uuid_string, uuid_text};
use crate::text::{
    chars_of, join4, spec_starts_with, spec_trim, starts_with, string_of, trim,
};

verus! {

/// How candidates are generated.
pub struct CandidateGenerationConfig {
    pub enabled: bool,
    pub max_candidates_per_execution: usize,
    pub min_content_length: usize,
    pub excluded_tools: Vec<String>,
}

/// One tool call of an execution: the tool's name and its input's rendering.
pub struct ToolCallSummary {
    pub tool_name: String,
    pub input: String,
}

/// What an execution did.
pub struct ExecutionSummary {
    pub task_id: u128,
    pub agent_instance_id: u128,
    pub goal: String,
    pub output_summary: String,
    pub tool_calls: Vec<ToolCallSummary>,
}

pub open spec fn texts(v: Seq<String>) -> Seq<Seq<char>> {
    v.map_values(|s: String| s@)
}

/// Whether generation is skipped: when it is disabled, or when the execution made
/// a single tool call and that tool is excluded.
pub open spec fn spec_skips(enabled: bool, excluded: Seq<Seq<char>>, calls: Seq<Seq<char>>) -> bool {
    !enabled || (calls.len() == 1 && excluded.contains(calls[0]))
}

fn is_excluded(excluded: &Vec<String>, name: &str) -> (r: bool)
    ensures
        r == texts(excluded@).contains(name@),
{
    let mut i: usize = 0;
    while i < excluded.len()
        invariant
            i <= excluded@.len(),
            forall|k: int| 0 <= k < i ==> texts(excluded@)[k] != name@,
        decreases excluded@.len() - i,
    {
        if crate::text::text_is(excluded[i].as_str(), name) {
            assert(texts(excluded@)[i as int] == name@);
            return true;
        }
        i = i + 1;
    }
    false
}

/// Whether an execution yields no candidates without asking the extractor.
pub fn skips_generation(config: &CandidateGenerationConfig, summary: &ExecutionSummary) -> (r: bool)
    ensures
        r == spec_skips(config.enabled, texts(config.excluded_tools@),
            summary.tool_calls@.map_values(|c: ToolCallSummary| c.tool_name@)),
{
    if !config.enabled {
        return true;
    }
    if summary.tool_calls.len() == 1 {
        return is_excluded(&config.excluded_tools, summary.tool_calls[0].tool_name.as_str());
    }
    false
}

/// The line that lists one tool call.
pub open spec fn call_line(c: ToolCallSummary) -> Seq<char> {
    "- "@ + c.tool_name@ + ": "@ + c.input@
}

/// The lines of the calls, joined by newlines.
pub open spec fn joined_lines(cs: Seq<ToolCallSummary>) -> Seq<char>
    decreases cs.len(),
{
    if cs.len() == 0 {
        seq![]
    } else if cs.len() == 1 {
        call_line(cs[0])
    } else {
        joined_lines(cs.drop_last()) + "\n"@ + call_line(cs.last())
    }
}

/// The listing of an execution's first twenty tool calls, one per line.
pub fn tool_calls_text(calls: &Vec<ToolCallSummary>) -> (s: String)
    ensures
        s@ == joined_lines(calls@.take(if calls@.len() < 20 { calls@.len() as int } else { 20 })),
{
    let n: usize = if calls.len() < 20 { calls.len() } else { 20 };
    let mut s = String::new();
    let mut i: usize = 0;
    while i < n
        invariant
            n <= calls@.len(),
            n == (if calls@.len() < 20 { calls@.len() as int } else { 20 }),
            i <= n,
            s@ == joined_lines(calls@.take(i as int)),
        decreases n - i,
    {
        let line = join4("- ", calls[i].tool_name.as_str(), ": ", calls[i].input.as_str());
        assert(calls@.take(i + 1).drop_last() =~= calls@.take(i as int));
        if i > 0 {
            s.append("\n");
        }
        s.append(line.as_str());
        i = i + 1;
    }
    s
}

/// The extractor's reply with a `json` code fence taken off when it has one at
/// both ends: trimmed, unwrapped, and trimmed again.
pub open spec fn unfenced(reply: Seq<char>) -> Seq<char> {
    let t = spec_trim(reply);
    if t.len() >= 10 && spec_starts_with(t, "```json"@) && t.subrange(t.len() - 3, t.len() as int) == "```"@ {
        spec_trim(t.subrange(7, t.len() - 3))
    } else {
        spec_trim(t)
    }
}

/// Takes a `json` code fence off the extractor's reply, for a second reading when
/// the reply is not valid JSON as it stands.
pub fn unfence(reply: &str) -> (s: String)
    ensures
        s@ == unfenced(reply@),
{
    let rc = chars_of(reply);
    let t = trim(rc.as_slice());
    let open = chars_of("```json");
    proof {
        reveal_strlit("```json");
        reveal_strlit("```");
    }
    if t.len() >= 10 && starts_with(t.as_slice(), open.as_slice()) && t[t.len() - 3] == '`' && t[t.len() - 2] == '`'
        && t[t.len() - 1] == '`' {
        assert(t@.subrange(t@.len() - 3, t@.len() as int) =~= "```"@);
        let inner = crate::text::slice_range(t.as_slice(), 7, t.len() - 3);
        let it = trim(inner.as_slice());
        string_of(it.as_slice())
    } else {
        proof {
            if t@.len() >= 10 && spec_starts_with(t@, "```json"@) && t@.subrange(t@.len() - 3, t@.len() as int) == "```"@ {
                assert(t@.subrange(t@.len() - 3, t@.len() as int)[0] == t@[t@.len() - 3]);
                assert(t@.subrange(t@.len() - 3, t@.len() as int)[1] == t@[t@.len() - 2]);
                assert(t@.subrange(t@.len() - 3, t@.len() as int)[2] == t@[t@.len() - 1]);
            }
        }
        let tt = trim(t.as_slice());
        string_of(tt.as_slice())
    }
}

/// A memory write candidate made from one extracted memory.
pub struct CandidateDraft {
    pub agent_instance_id: u128,
    pub content_json: String,
    pub reasoning: String,
}

/// The reasoning recorded with a candidate.
pub open spec fn reasoning_text(task_id: u128, goal: Seq<char>) -> Seq<char> {
    "Extracted from task '"@ + uuid_string(task_id) + "' - "@ + goal
}

/// The candidates made from the extracted memories (given by their JSON): at most
/// the configured number, in order, each with the execution's instance and reasoning.
pub fn candidates_from(summary: &ExecutionSummary, max: usize, contents: Vec<String>) -> (cs: Vec<CandidateDraft>)
    ensures
        cs@.len() == if contents@.len() < max { contents@.len() } else { max as nat },
        forall|k: int| 0 <= k < cs@.len() ==> {
            &&& #[trigger] cs@[k].agent_instance_id == summary.agent_instance_id
            &&& cs@[k].content_json@ == contents@[k]@
            &&& cs@[k].reasoning@ == reasoning_text(summary.task_id, summary.goal@)
        },
{
    let n: usize = if contents.len() < max { contents.len() } else { max };
    let mut cs: Vec<CandidateDraft> = Vec::new();
    let mut i: usize = 0;
    while i < n
        invariant
            n <= contents@.len(),
            n == (if contents@.len() < max { contents@.len() as int } else { max as int }),
            i <= n,
            cs@.len() == i,
            forall|k: int| 0 <= k < i ==> {
                &&& #[trigger] cs@[k].agent_instance_id == summary.agent_instance_id
                &&& cs@[k].content_json@ == contents@[k]@
                &&& cs@[k].reasoning@ == reasoning_text(summary.task_id, summary.goal@)
            },
        decreases n - i,
    {
        let tid = uuid_text(summary.task_id);
        let reasoning = join4("Extracted from task '", tid.as_str(), "' - ", summary.goal.as_str());
        cs.push(CandidateDraft {
            agent_instance_id: summary.agent_instance_id,
            content_json: contents[i].clone(),
            reasoning,
        });
        i = i + 1;
    }
    assert(i == n);
    cs
}

/// Generates memory candidates from an execution.
pub trait CandidateGenerator {
    fn generate_candidates(&self, summary: &ExecutionSummary, config: &CandidateGenerationConfig) -> Vec<CandidateDraft>;
}

/// A generator that never proposes anything.
pub struct NoOpCandidateGenerator;

impl CandidateGenerator for NoOpCandidateGenerator {
    fn generate_candidates(&self, summary: &ExecutionSummary, config: &CandidateGenerationConfig) -> (cs: Vec<CandidateDraft>)
        ensures
            cs@.len() == 0,
    {
        Vec::new()
    }
}

} // verus!
