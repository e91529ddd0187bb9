//! Memory gating: how risky a memory write is, whether it duplicates or can merge
//! with what is stored, and the decision to approve, merge, review or reject it.
//! Scores and similarities are floating point and are compared by the caller; the
//! comparisons arrive here as booleans, with their rendered values for the reasons.

use vstd::prelude::*;
use crate::text::{
    chars_equal, is_numeric, is_numeric_char, spec_split_whitespace, split_whitespace, chars_of, contains, contains_any, lowercase_text, spec_contains, spec_contains_any, spec_trim,
    string_of, to_lowercase, trim,
};

verus! {

/// How risky a memory write is.
#[derive(Debug, Clone, Copy, PartialEq, Eq, Structural)]
pub enum RiskLevel {
    Low,
    Medium,
    High,
}

/// The risk of a memory write, whether the user must consent, and why it needs review.
pub struct RiskAssessment {
    pub level: RiskLevel,
    pub consent_required: bool,
    pub review_reason: Option<String>,
}

pub open spec fn high_impact_terms() -> Seq<&'static str> {
    seq!["database_config", "api_keys", "security_policy", "password", "secret", "credential"]
}

pub open spec fn medium_impact_terms() -> Seq<&'static str> {
    seq!["preference", "setting", "theme", "language", "timezone"]
}

pub open spec fn consent_terms() -> Seq<&'static str> {
    seq!["personal", "private", "sensitive", "confidential"]
}

/// The risk of a value whose lowercased JSON text is `t`: a high-impact field makes
/// it high risk with consent; a preference-like field medium; otherwise low, with
/// consent where the text speaks of personal or confidential matters.
pub open spec fn risk_level_of(t: Seq<char>) -> RiskLevel {
    if spec_contains_any(t, high_impact_terms()) {
        RiskLevel::High
    } else if spec_contains_any(t, medium_impact_terms()) {
        RiskLevel::Medium
    } else {
        RiskLevel::Low
    }
}

pub open spec fn consent_of(t: Seq<char>) -> bool {
    if spec_contains_any(t, high_impact_terms()) {
        true
    } else if spec_contains_any(t, medium_impact_terms()) {
        false
    } else {
        spec_contains_any(t, consent_terms())
    }
}

pub open spec fn review_reason_of(t: Seq<char>) -> Option<Seq<char>> {
    if spec_contains_any(t, high_impact_terms()) {
        Some("High-impact field detected"@)
    } else if spec_contains_any(t, medium_impact_terms()) {
        Some("Medium-impact preference detected"@)
    } else {
        None
    }
}

/// Assesses the risk of storing a memory value, given the value's JSON text.
pub fn evaluate_risk(value_json: &str) -> (r: RiskAssessment)
    ensures
        r.level == risk_level_of(lowercase_text(value_json@)),
        r.consent_required == consent_of(lowercase_text(value_json@)),
        r.review_reason.is_some() == review_reason_of(lowercase_text(value_json@)).is_some(),
        r.review_reason.is_some() ==> r.review_reason.unwrap()@ == review_reason_of(lowercase_text(value_json@)).unwrap(),
{
    let lower = to_lowercase(value_json);
    let t = chars_of(lower.as_str());
    let high: [&str; 6] = ["database_config", "api_keys", "security_policy", "password", "secret", "credential"];
    assert(high@ =~= high_impact_terms());
    if contains_any(t.as_slice(), &high) {
        return RiskAssessment {
            level: RiskLevel::High,
            consent_required: true,
            review_reason: Some(String::from_str("High-impact field detected")),
        };
    }
    let medium: [&str; 5] = ["preference", "setting", "theme", "language", "timezone"];
    assert(medium@ =~= medium_impact_terms());
    if contains_any(t.as_slice(), &medium) {
        return RiskAssessment {
            level: RiskLevel::Medium,
            consent_required: false,
            review_reason: Some(String::from_str("Medium-impact preference detected")),
        };
    }
    let consent: [&str; 4] = ["personal", "private", "sensitive", "confidential"];
    assert(consent@ =~= consent_terms());
    let needs_consent = contains_any(t.as_slice(), &consent);
    RiskAssessment { level: RiskLevel::Low, consent_required: needs_consent, review_reason: None }
}

/// A high-impact field always needs review with the user's consent.
pub proof fn lemma_high_impact_needs_consent(t: Seq<char>)
    requires
        spec_contains_any(t, high_impact_terms()),
    ensures
        risk_level_of(t) == RiskLevel::High,
        consent_of(t),
{
}

/// How a memory candidate compares with the most similar stored entry.
#[derive(Debug, Clone, Copy, PartialEq, Eq, Structural)]
pub enum DedupAction {
    New,
    Mergeable,
    Duplicate,
}

pub open spec fn spec_dedup_action(found_similar: bool, at_duplicate: bool, at_merge: bool) -> DedupAction {
    if !found_similar {
        DedupAction::New
    } else if at_duplicate {
        DedupAction::Duplicate
    } else if at_merge {
        DedupAction::Mergeable
    } else {
        DedupAction::New
    }
}

/// The dedup action for the best match: none found is new; a similarity at or above
/// the duplicate threshold is a duplicate, at or above the merge threshold mergeable.
pub fn dedup_action(found_similar: bool, at_duplicate_threshold: bool, at_merge_threshold: bool) -> (a: DedupAction)
    ensures
        a == spec_dedup_action(found_similar, at_duplicate_threshold, at_merge_threshold),
{
    if !found_similar {
        DedupAction::New
    } else if at_duplicate_threshold {
        DedupAction::Duplicate
    } else if at_merge_threshold {
        DedupAction::Mergeable
    } else {
        DedupAction::New
    }
}

/// Whether a dedup result is close enough to ask for an equivalence check: a new one
/// within 0.05 below the merge threshold, every mergeable one, and a duplicate below
/// 0.98.
pub fn should_check_equivalence(action: DedupAction, near_merge_threshold: bool, below_near_identical: bool) -> (r: bool)
    ensures
        r == match action {
            DedupAction::New => near_merge_threshold,
            DedupAction::Mergeable => true,
            DedupAction::Duplicate => below_near_identical,
        },
{
    match action {
        DedupAction::New => near_merge_threshold,
        DedupAction::Mergeable => true,
        DedupAction::Duplicate => below_near_identical,
    }
}

/// Whether two memories say the same thing.
#[derive(Debug, Clone, Copy, PartialEq, Eq, Structural)]
pub enum EquivalenceResult {
    Equivalent,
    Mergeable,
    Conflict,
    Distinct,
}

/// What an equivalence check knows of the two memories: how long apart they were
/// written, whether by the same task or agent, and how their content similarity
/// compares with 0.96, 0.92 and 0.80.
pub struct EquivalenceFacts {
    pub time_delta_seconds: Option<i64>,
    pub same_task: bool,
    pub same_agent: bool,
    pub similarity_above_096: bool,
    pub similarity_above_092: bool,
    pub similarity_below_080: bool,
}

pub open spec fn spec_equivalence(f: EquivalenceFacts) -> EquivalenceResult {
    if f.same_task && f.similarity_above_096 {
        EquivalenceResult::Equivalent
    } else if f.same_agent && f.similarity_above_092 {
        EquivalenceResult::Mergeable
    } else if f.similarity_below_080 {
        EquivalenceResult::Distinct
    } else {
        EquivalenceResult::Mergeable
    }
}

/// The rule-based equivalence check: the same task with near-identical content is
/// equivalent (whether or not it was recent); the same agent with very similar
/// content can merge; dissimilar content is distinct; the rest can merge.
pub fn check_equivalence(f: &EquivalenceFacts) -> (r: EquivalenceResult)
    ensures
        r == spec_equivalence(*f),
{
    match f.time_delta_seconds {
        Some(delta) => {
            if f.same_task && delta < 300 && f.similarity_above_096 {
                return EquivalenceResult::Equivalent;
            }
        }
        None => {}
    }
    if f.same_task && f.similarity_above_096 {
        return EquivalenceResult::Equivalent;
    }
    if f.same_agent && f.similarity_above_092 {
        return EquivalenceResult::Mergeable;
    }
    if f.similarity_below_080 {
        return EquivalenceResult::Distinct;
    }
    EquivalenceResult::Mergeable
}

/// The facts of a candidate and the stored entry it resembles, as the memory
/// equivalence check sees them: how far apart they were written is unknown, they
/// never share a task, and they always share an agent.
pub fn candidate_equivalence_facts(above_096: bool, above_092: bool, below_080: bool) -> (f: EquivalenceFacts)
    ensures
        f.time_delta_seconds is None,
        !f.same_task,
        f.same_agent,
        f.similarity_above_096 == above_096,
        f.similarity_above_092 == above_092,
        f.similarity_below_080 == below_080,
{
    EquivalenceFacts {
        time_delta_seconds: None,
        same_task: false,
        same_agent: true,
        similarity_above_096: above_096,
        similarity_above_092: above_092,
        similarity_below_080: below_080,
    }
}

/// The verdict in a language model's reply, trimmed and lowercased to `t`.
pub open spec fn reply_verdict(t: Seq<char>) -> EquivalenceResult {
    if spec_contains(t, "equivalent"@) {
        EquivalenceResult::Equivalent
    } else if spec_contains(t, "conflict"@) {
        EquivalenceResult::Conflict
    } else if spec_contains(t, "mergeable"@) {
        EquivalenceResult::Mergeable
    } else {
        EquivalenceResult::Distinct
    }
}

/// Reads the verdict of a language model asked whether two memories are equivalent:
/// `equivalent`, `conflict` or `mergeable` anywhere in the lowercased reply, else
/// distinct. Without an embedding generator, an API key or a successful response
/// the answer is distinct.
pub fn equivalence_from_reply(embedding_configured: bool, api_key_present: bool, response_ok: bool, reply: &str) -> (r: EquivalenceResult)
    ensures
        !(embedding_configured && api_key_present && response_ok) ==> r == EquivalenceResult::Distinct,
        embedding_configured && api_key_present && response_ok ==> r == reply_verdict(
            lowercase_text(spec_trim(reply@)),
        ),
{
    if !embedding_configured || !api_key_present || !response_ok {
        return EquivalenceResult::Distinct;
    }
    let rc = chars_of(reply);
    let trimmed = trim(rc.as_slice());
    let ts = string_of(trimmed.as_slice());
    let lower = to_lowercase(ts.as_str());
    let t = chars_of(lower.as_str());
    let eq = chars_of("equivalent");
    let co = chars_of("conflict");
    let me = chars_of("mergeable");
    if contains(t.as_slice(), eq.as_slice()) {
        EquivalenceResult::Equivalent
    } else if contains(t.as_slice(), co.as_slice()) {
        EquivalenceResult::Conflict
    } else if contains(t.as_slice(), me.as_slice()) {
        EquivalenceResult::Mergeable
    } else {
        EquivalenceResult::Distinct
    }
}

/// Whether a memory text is about a moment in time, timeless, or neither.
#[derive(Debug, Clone, Copy, PartialEq, Eq, Structural)]
pub enum Timelessness {
    Temporal,
    Timeless,
    Neutral,
}

pub open spec fn temporal_terms() -> Seq<&'static str> {
    seq!["yesterday", "today", "tomorrow", "recently", "last week", "currently"]
}

pub open spec fn timeless_terms() -> Seq<&'static str> {
    seq!["always", "never", "typically", "usually", "best practice", "convention"]
}

pub open spec fn timelessness_of(t: Seq<char>) -> Timelessness {
    if spec_contains_any(t, temporal_terms()) {
        Timelessness::Temporal
    } else if spec_contains_any(t, timeless_terms()) {
        Timelessness::Timeless
    } else {
        Timelessness::Neutral
    }
}

/// Classifies a memory text by its (lowercased) wording about time; temporal words win.
pub fn classify_timelessness(text: &str) -> (r: Timelessness)
    ensures
        r == timelessness_of(lowercase_text(text@)),
{
    let lower = to_lowercase(text);
    let t = chars_of(lower.as_str());
    let temporal: [&str; 6] = ["yesterday", "today", "tomorrow", "recently", "last week", "currently"];
    assert(temporal@ =~= temporal_terms());
    if contains_any(t.as_slice(), &temporal) {
        return Timelessness::Temporal;
    }
    let timeless: [&str; 6] = ["always", "never", "typically", "usually", "best practice", "convention"];
    assert(timeless@ =~= timeless_terms());
    if contains_any(t.as_slice(), &timeless) {
        return Timelessness::Timeless;
    }
    Timelessness::Neutral
}

/// Whether a memory text is of general use, specific to one occasion, or neither.
#[derive(Debug, Clone, Copy, PartialEq, Eq, Structural)]
pub enum Reusability {
    General,
    Specific,
    Neutral,
}

pub open spec fn general_terms() -> Seq<&'static str> {
    seq!["agent", "user", "preference", "setting", "configuration", "pattern"]
}

pub open spec fn occasion_terms() -> Seq<&'static str> {
    seq!["session", "temporary", "one-time", "ephemeral"]
}

pub open spec fn reusability_of(t: Seq<char>) -> Reusability {
    if spec_contains_any(t, general_terms()) {
        Reusability::General
    } else if spec_contains_any(t, occasion_terms()) {
        Reusability::Specific
    } else {
        Reusability::Neutral
    }
}

/// Classifies a memory text by its (lowercased) wording about reuse; general words win.
pub fn classify_reusability(text: &str) -> (r: Reusability)
    ensures
        r == reusability_of(lowercase_text(text@)),
{
    let lower = to_lowercase(text);
    let t = chars_of(lower.as_str());
    let general: [&str; 6] = ["agent", "user", "preference", "setting", "configuration", "pattern"];
    assert(general@ =~= general_terms());
    if contains_any(t.as_slice(), &general) {
        return Reusability::General;
    }
    let occasion: [&str; 4] = ["session", "temporary", "one-time", "ephemeral"];
    assert(occasion@ =~= occasion_terms());
    if contains_any(t.as_slice(), &occasion) {
        return Reusability::Specific;
    }
    Reusability::Neutral
}

pub open spec fn specific_terms() -> Seq<&'static str> {
    seq!["uuid", "id", "timestamp", "config", "setting", "value", "mode", "format"]
}

/// Whether a memory text names specific things: a numeric character anywhere, or one
/// of the specific terms in its lowercased form.
pub fn is_specific(text: &str) -> (r: bool)
    ensures
        r == ((exists|k: int| 0 <= k < text@.len() && is_numeric_char(#[trigger] text@[k]))
            || spec_contains_any(lowercase_text(text@), specific_terms())),
{
    let cs = chars_of(text);
    let mut i: usize = 0;
    while i < cs.len()
        invariant
            i <= cs@.len(),
            cs@ == text@,
            forall|k: int| 0 <= k < i ==> !is_numeric_char(#[trigger] text@[k]),
        decreases cs@.len() - i,
    {
        if is_numeric(cs[i]) {
            return true;
        }
        i = i + 1;
    }
    let lower = to_lowercase(text);
    let t = chars_of(lower.as_str());
    let terms: [&str; 8] = ["uuid", "id", "timestamp", "config", "setting", "value", "mode", "format"];
    assert(terms@ =~= specific_terms());
    contains_any(t.as_slice(), &terms)
}

/// The number of words of `ws` that do not occur earlier in it.
pub open spec fn distinct_count(ws: Seq<Seq<char>>) -> nat
    decreases ws.len(),
{
    if ws.len() == 0 {
        0
    } else {
        distinct_count(ws.drop_last()) + if ws.drop_last().contains(ws.last()) { 0nat } else { 1nat }
    }
}

/// The number of whitespace-separated words of a memory text, and how many of them
/// are distinct; the information density of the text is scored from these.
pub fn word_counts(text: &str) -> (r: (usize, usize))
    ensures
        r.0 == spec_split_whitespace(text@).len(),
        r.1 == distinct_count(spec_split_whitespace(text@)),
{
    let cs = chars_of(text);
    let ws = split_whitespace(cs.as_slice());
    let ghost sw = spec_split_whitespace(text@);
    let mut distinct: usize = 0;
    let mut i: usize = 0;
    while i < ws.len()
        invariant
            i <= ws@.len(),
            ws@.len() == sw.len(),
            forall|k: int| 0 <= k < ws@.len() ==> #[trigger] ws@[k]@ == sw[k],
            distinct == distinct_count(sw.take(i as int)),
            distinct <= i,
        decreases ws@.len() - i,
    {
        let mut seen = false;
        let mut j: usize = 0;
        while j < i
            invariant
                j <= i < ws@.len(),
                ws@.len() == sw.len(),
                forall|k: int| 0 <= k < ws@.len() ==> #[trigger] ws@[k]@ == sw[k],
                seen == (exists|k: int| 0 <= k < j && sw[k] == sw[i as int]),
            decreases i - j,
        {
            if chars_equal(ws[j].as_slice(), ws[i].as_slice()) {
                seen = true;
            }
            proof {
                if seen && !(exists|k: int| 0 <= k < j && sw[k] == sw[i as int]) {
                    assert(sw[j as int] == sw[i as int]);
                }
            }
            j = j + 1;
        }
        proof {
            let pre = sw.take(i as int);
            assert(sw.take(i + 1).drop_last() =~= pre);
            assert(sw.take(i + 1).last() == sw[i as int]);
            if seen {
                let k = choose|k: int| 0 <= k < i && sw[k] == sw[i as int];
                assert(pre[k] == sw[i as int]);
            } else {
                assert forall|k: int| 0 <= k < pre.len() implies pre[k] != sw[i as int] by {
                    assert(pre[k] == sw[k]);
                }
            }
        }
        if !seen {
            distinct = distinct + 1;
        }
        i = i + 1;
    }
    assert(sw.take(ws@.len() as int) =~= sw);
    (ws.len(), distinct)
}

/// The kinds of gate decision.
#[derive(Debug, Clone, Copy, PartialEq, Eq, Structural)]
pub enum GateDecisionType {
    Approve,
    Review,
    Reject,
    Merge,
}

/// How urgently a decision needs review.
#[derive(Debug, Clone, Copy, PartialEq, Eq, Structural)]
pub enum ReviewPriority {
    Low,
    Medium,
    High,
}

/// How an approved write is applied: inserted, or summarized into an existing entry.
#[derive(Debug, Clone, Copy, PartialEq, Eq, Structural)]
pub enum WriteMode {
    Insert,
    MergeSummarize { target_id: u128 },
}

/// A gate decision for one memory write candidate.
pub struct GateDecision {
    pub decision: GateDecisionType,
    pub write_mode: Option<WriteMode>,
    pub target_entry_id: Option<u128>,
    pub reason: String,
    pub priority: Option<ReviewPriority>,
}

/// What is known of a candidate: whether it is still pending, its risk, how it
/// compares with stored memories, whether it is external context, and how its
/// quality compares with the auto-approve threshold, 0.75 and 0.60, with the
/// rendered similarity, quality and threshold (two decimals) for the reasons.
pub struct GateInput {
    pub pending: bool,
    pub risk_level: RiskLevel,
    pub consent_required: bool,
    pub review_reason: Option<String>,
    pub dedup: DedupAction,
    pub similar_entry_id: Option<u128>,
    pub external_context: bool,
    pub quality_auto_approvable: bool,
    pub quality_at_least_075: bool,
    pub quality_at_least_060: bool,
    pub similarity_text: String,
    pub quality_text: String,
    pub threshold_text: String,
}

/// The decision kind, write mode, target and priority for a candidate, in the order
/// they are tested: not pending, risky, duplicate, external context, auto-approvable,
/// mergeable, otherwise review by quality.
pub open spec fn spec_gate(g: GateInput) -> (GateDecisionType, Option<WriteMode>, Option<u128>, Option<ReviewPriority>) {
    if !g.pending {
        (GateDecisionType::Review, None, None, Some(ReviewPriority::Low))
    } else if g.risk_level == RiskLevel::High || g.consent_required {
        (GateDecisionType::Review, None, None, Some(ReviewPriority::High))
    } else if g.dedup == DedupAction::Duplicate {
        (GateDecisionType::Reject, None, None, None)
    } else if g.external_context {
        (GateDecisionType::Review, None, None, Some(ReviewPriority::Medium))
    } else if g.quality_auto_approvable && g.dedup == DedupAction::New {
        (GateDecisionType::Approve, Some(WriteMode::Insert), None, None)
    } else if g.dedup == DedupAction::Mergeable {
        (
            GateDecisionType::Merge,
            Some(WriteMode::MergeSummarize { target_id: match g.similar_entry_id { Some(id) => id, None => 0 } }),
            g.similar_entry_id,
            None,
        )
    } else {
        (
            GateDecisionType::Review,
            None,
            None,
            Some(
                if g.quality_at_least_075 {
                    ReviewPriority::Low
                } else if g.quality_at_least_060 {
                    ReviewPriority::Medium
                } else {
                    ReviewPriority::High
                },
            ),
        )
    }
}

/// The reason recorded with the decision.
pub open spec fn gate_reason(g: GateInput) -> Seq<char> {
    if !g.pending {
        "Candidate not in pending status"@
    } else if g.risk_level == RiskLevel::High || g.consent_required {
        match g.review_reason {
            Some(r) => r@,
            None => "High risk or consent required"@,
        }
    } else if g.dedup == DedupAction::Duplicate {
        "Duplicate of existing memory (similarity: "@ + g.similarity_text@ + ")"@
    } else if g.external_context {
        "External context memory requires review"@
    } else if g.quality_auto_approvable && g.dedup == DedupAction::New {
        "Auto-approved: high quality, low risk, no duplicates"@
    } else if g.dedup == DedupAction::Mergeable {
        "Mergeable with existing memory (similarity: "@ + g.similarity_text@ + ")"@
    } else {
        "Quality "@ + g.quality_text@ + " below auto-approve threshold "@ + g.threshold_text@
    }
}

fn text_of(parts: &[&str]) -> (s: String)
    ensures
        s@ == crate::text::concat_views(parts@),
{
    crate::text::concat_strs(parts)
}

/// Decides what happens to a memory write candidate.
pub fn make_decision(g: &GateInput) -> (d: GateDecision)
    ensures
        (d.decision, d.write_mode, d.target_entry_id, d.priority) == spec_gate(*g),
        d.reason@ == gate_reason(*g),
        (g.pending && g.risk_level != RiskLevel::High && !g.consent_required && g.dedup == DedupAction::New
            && !g.external_context && !g.quality_auto_approvable) ==> d.decision == GateDecisionType::Review
            && (!g.quality_at_least_060 && !g.quality_at_least_075 ==> d.priority == Some(ReviewPriority::High))
            && (g.quality_at_least_075 ==> d.priority == Some(ReviewPriority::Low)),
{
    proof { lemma_review_priority_follows_quality(*g); }
    if !g.pending {
        return GateDecision {
            decision: GateDecisionType::Review,
            write_mode: None,
            target_entry_id: None,
            reason: String::from_str("Candidate not in pending status"),
            priority: Some(ReviewPriority::Low),
        };
    }
    if g.risk_level == RiskLevel::High || g.consent_required {
        let reason = match &g.review_reason {
            Some(r) => r.clone(),
            None => String::from_str("High risk or consent required"),
        };
        return GateDecision {
            decision: GateDecisionType::Review,
            write_mode: None,
            target_entry_id: None,
            reason,
            priority: Some(ReviewPriority::High),
        };
    }
    if g.dedup == DedupAction::Duplicate {
        let parts = ["Duplicate of existing memory (similarity: ", g.similarity_text.as_str(), ")"];
        let reason = text_of(&parts);
        proof {
            reveal_with_fuel(crate::text::concat_views, 4);
            assert(parts@.drop_last().drop_last().drop_last() =~= Seq::<&str>::empty());
        }
        return GateDecision { decision: GateDecisionType::Reject, write_mode: None, target_entry_id: None, reason, priority: None };
    }
    if g.external_context {
        return GateDecision {
            decision: GateDecisionType::Review,
            write_mode: None,
            target_entry_id: None,
            reason: String::from_str("External context memory requires review"),
            priority: Some(ReviewPriority::Medium),
        };
    }
    if g.quality_auto_approvable && g.dedup == DedupAction::New {
        return GateDecision {
            decision: GateDecisionType::Approve,
            write_mode: Some(WriteMode::Insert),
            target_entry_id: None,
            reason: String::from_str("Auto-approved: high quality, low risk, no duplicates"),
            priority: None,
        };
    }
    if g.dedup == DedupAction::Mergeable {
        let target = match g.similar_entry_id {
            Some(id) => id,
            None => 0,
        };
        let parts = ["Mergeable with existing memory (similarity: ", g.similarity_text.as_str(), ")"];
        let reason = text_of(&parts);
        proof {
            reveal_with_fuel(crate::text::concat_views, 4);
            assert(parts@.drop_last().drop_last().drop_last() =~= Seq::<&str>::empty());
        }
        return GateDecision {
            decision: GateDecisionType::Merge,
            write_mode: Some(WriteMode::MergeSummarize { target_id: target }),
            target_entry_id: g.similar_entry_id,
            reason,
            priority: None,
        };
    }
    let priority = if g.quality_at_least_075 {
        ReviewPriority::Low
    } else if g.quality_at_least_060 {
        ReviewPriority::Medium
    } else {
        ReviewPriority::High
    };
    let parts = ["Quality ", g.quality_text.as_str(), " below auto-approve threshold ", g.threshold_text.as_str()];
    let reason = text_of(&parts);
    proof {
        reveal_with_fuel(crate::text::concat_views, 5);
        assert(parts@.drop_last().drop_last().drop_last().drop_last() =~= Seq::<&str>::empty());
    }
    GateDecision { decision: GateDecisionType::Review, write_mode: None, target_entry_id: None, reason, priority: Some(priority) }
}

/// Lower quality never gets a lower review priority: a candidate that reaches the
/// quality review (pending, not risky, needing no consent, no duplicate, not
/// external, neither auto-approved nor mergeable) is reviewed with High priority
/// below 0.60, Medium from 0.60 and Low from 0.75. Risky or consent-bound
/// candidates are always reviewed with High priority, external context with
/// Medium, and candidates no longer pending with Low.
pub proof fn lemma_review_priority_follows_quality(g: GateInput)
    ensures
        ({
            let quality_review = g.pending && g.risk_level != RiskLevel::High && !g.consent_required
                && g.dedup != DedupAction::Duplicate && !g.external_context
                && !(g.quality_auto_approvable && g.dedup == DedupAction::New) && g.dedup != DedupAction::Mergeable;
            &&& quality_review ==> spec_gate(g).0 == GateDecisionType::Review
            &&& quality_review && !g.quality_at_least_060 && !g.quality_at_least_075 ==> spec_gate(g).3 == Some(ReviewPriority::High)
            &&& quality_review && g.quality_at_least_060 && !g.quality_at_least_075 ==> spec_gate(g).3 == Some(ReviewPriority::Medium)
            &&& quality_review && g.quality_at_least_075 ==> spec_gate(g).3 == Some(ReviewPriority::Low)
            &&& g.pending && (g.risk_level == RiskLevel::High || g.consent_required)
                ==> spec_gate(g) == (GateDecisionType::Review, None::<WriteMode>, None::<u128>, Some(ReviewPriority::High))
            &&& g.pending && g.risk_level != RiskLevel::High && !g.consent_required && g.dedup != DedupAction::Duplicate
                && g.external_context ==> spec_gate(g).3 == Some(ReviewPriority::Medium)
            &&& !g.pending ==> spec_gate(g).3 == Some(ReviewPriority::Low)
            &&& !g.pending ==> spec_gate(g).0 == GateDecisionType::Review
            &&& g.pending && g.risk_level != RiskLevel::High && !g.consent_required && g.dedup == DedupAction::Duplicate
                ==> spec_gate(g).0 == GateDecisionType::Reject && spec_gate(g).1 is None
            &&& spec_gate(g).0 == GateDecisionType::Merge ==> g.dedup == DedupAction::Mergeable
                && spec_gate(g).2 == g.similar_entry_id
            &&& (spec_gate(g).0 == GateDecisionType::Review) <==> (spec_gate(g).3 is Some)
        }),
{
}

/// Of two candidates that both reach the quality review and differ only in their
/// quality, the one of lower quality is reviewed at least as urgently.
pub proof fn lemma_lower_quality_is_reviewed_no_later(g: GateInput, h: GateInput)
    requires
        g.pending && g.risk_level != RiskLevel::High && !g.consent_required && g.dedup == DedupAction::New
            && !g.external_context && !g.quality_auto_approvable,
        h.pending && h.risk_level != RiskLevel::High && !h.consent_required && h.dedup == DedupAction::New
            && !h.external_context && !h.quality_auto_approvable,
        g.quality_at_least_075 ==> g.quality_at_least_060,
        h.quality_at_least_075 ==> h.quality_at_least_060,
        h.quality_at_least_060 ==> g.quality_at_least_060,
        h.quality_at_least_075 ==> g.quality_at_least_075,
    ensures
        priority_rank(spec_gate(h).3) >= priority_rank(spec_gate(g).3),
{
}

/// How urgent a review is: High over Medium over Low.
pub open spec fn priority_rank(p: Option<ReviewPriority>) -> int {
    match p {
        Some(ReviewPriority::High) => 3,
        Some(ReviewPriority::Medium) => 2,
        Some(ReviewPriority::Low) => 1,
        None => 0,
    }
}

/// A candidate is approved only when it is pending, low enough in risk, needs no
/// consent, duplicates and merges with nothing, is not external context and is of
/// auto-approvable quality; an approval always inserts.
pub proof fn lemma_approval_only_for_safe_new_memories(g: GateInput)
    ensures
        spec_gate(g).0 == GateDecisionType::Approve ==> {
            &&& g.pending
            &&& g.risk_level != RiskLevel::High
            &&& !g.consent_required
            &&& g.dedup == DedupAction::New
            &&& !g.external_context
            &&& g.quality_auto_approvable
            &&& spec_gate(g).1 == Some(WriteMode::Insert)
        },
        g.dedup == DedupAction::Duplicate ==> spec_gate(g).0 != GateDecisionType::Approve
            && spec_gate(g).0 != GateDecisionType::Merge,
{
}

/// The name of a decision as it is logged.
pub fn decision_name(d: GateDecisionType) -> (s: &'static str)
    ensures
        s@ == match d {
            GateDecisionType::Approve => "approve"@,
            GateDecisionType::Review => "review"@,
            GateDecisionType::Reject => "reject"@,
            GateDecisionType::Merge => "merge"@,
        },
{
    match d {
        GateDecisionType::Approve => "approve",
        GateDecisionType::Review => "review",
        GateDecisionType::Reject => "reject",
        GateDecisionType::Merge => "merge",
    }
}

/// Who a decision is logged as processed by: automatic approvals and merges, policy
/// reviews, dedup rejections.
pub fn processed_by(d: GateDecisionType) -> (s: &'static str)
    ensures
        s@ == match d {
            GateDecisionType::Approve | GateDecisionType::Merge => "auto"@,
            GateDecisionType::Review => "policy"@,
            GateDecisionType::Reject => "dedup"@,
        },
{
    match d {
        GateDecisionType::Approve | GateDecisionType::Merge => "auto",
        GateDecisionType::Review => "policy",
        GateDecisionType::Reject => "dedup",
    }
}

} // verus!
