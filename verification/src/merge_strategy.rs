//! How a memory candidate is merged into an existing entry: which key the merged
//! entry keeps, whether an appended value is new, and the provenance recorded.
//! Values are JSON; the library sees them by their rendering.

use vstd::prelude::*;
use crate::clock::now_micros;
use crate::ids::{uuid_string, uuid_text};

verus! {

/// How two memories are merged.
#[derive(Debug, Clone, Copy, PartialEq, Eq, Structural)]
pub enum MergeStrategy {
    Summarize,
    Append,
    KeepSeparate,
    WithProvenance,
}

/// Where a merged value came from and how.
pub struct ProvenanceEntry {
    pub source: String,
    pub method: String,
    pub timestamp_micros: Option<i64>,
}

pub open spec fn prov_view(p: ProvenanceEntry) -> (Seq<char>, Seq<char>, bool) {
    (p.source@, p.method@, p.timestamp_micros is Some)
}

pub open spec fn provs_view(ps: Seq<ProvenanceEntry>) -> Seq<(Seq<char>, Seq<char>, bool)> {
    ps.map_values(|p: ProvenanceEntry| prov_view(p))
}

fn entry(source: String, method: &str) -> (p: ProvenanceEntry)
    ensures
        prov_view(p) == (source@, method@, false),
{
    ProvenanceEntry { source, method: method.to_string(), timestamp_micros: None }
}

/// Appends the candidate's value to the existing values (the existing array's
/// items, or the existing value alone), unless a value with the same rendering is
/// already there; keeps the existing key; records the existing entry as source.
pub struct AppendStrategy;

impl AppendStrategy {
    /// Whether the candidate's value is appended.
    pub fn appends(&self, existing_renderings: &[String], candidate_rendering: &str) -> (r: bool)
        ensures
            r == !(exists|k: int| 0 <= k < existing_renderings@.len() && #[trigger] existing_renderings@[k]@ == candidate_rendering@),
    {
        let mut i: usize = 0;
        while i < existing_renderings.len()
            invariant
                i <= existing_renderings@.len(),
                forall|k: int| 0 <= k < i ==> #[trigger] existing_renderings@[k]@ != candidate_rendering@,
            decreases existing_renderings@.len() - i,
        {
            if crate::text::text_is(existing_renderings[i].as_str(), candidate_rendering) {
                return false;
            }
            i = i + 1;
        }
        true
    }

    /// The provenance of an appended entry.
    pub fn provenance(&self, existing_id: u128) -> (ps: Vec<ProvenanceEntry>)
        ensures
            provs_view(ps@) == seq![(uuid_string(existing_id), "append"@, false)],
    {
        let mut ps: Vec<ProvenanceEntry> = Vec::new();
        ps.push(entry(uuid_text(existing_id), "append"));
        assert(provs_view(ps@) =~= seq![(uuid_string(existing_id), "append"@, false)]);
        ps
    }
}

/// Keeps both entries side by side under the candidate's key.
pub struct KeepSeparateStrategy;

impl KeepSeparateStrategy {
    /// The provenance of an entry kept separate.
    pub fn provenance(&self, existing_id: u128) -> (ps: Vec<ProvenanceEntry>)
        ensures
            provs_view(ps@) == seq![(uuid_string(existing_id), "keep_separate"@, false)],
    {
        let mut ps: Vec<ProvenanceEntry> = Vec::new();
        ps.push(entry(uuid_text(existing_id), "keep_separate"));
        assert(provs_view(ps@) =~= seq![(uuid_string(existing_id), "keep_separate"@, false)]);
        ps
    }
}

/// Takes the candidate's value and carries the existing provenance forward, with
/// one more timestamped entry naming the candidate's key.
pub struct WithProvenanceStrategy;

impl WithProvenanceStrategy {
    /// The provenance after merging: the existing entries, then the candidate's.
    pub fn provenance(&self, existing: Vec<ProvenanceEntry>, candidate_key: &str) -> (ps: Vec<ProvenanceEntry>)
        ensures
            provs_view(ps@) == provs_view(existing@).push((candidate_key@, "merged"@, true)),
    {
        let mut ps = existing;
        let ghost before = ps@;
        ps.push(ProvenanceEntry {
            source: candidate_key.to_string(),
            method: String::from_str("merged"),
            timestamp_micros: Some(now_micros()),
        });
        assert(provs_view(ps@) =~= provs_view(before).push((candidate_key@, "merged"@, true)));
        ps
    }
}

/// The provenance of a summarized entry: the existing entry as original, the
/// candidate's key as summarized.
pub fn summarize_provenance(existing_id: u128, candidate_key: &str) -> (ps: Vec<ProvenanceEntry>)
    ensures
        provs_view(ps@) == seq![(uuid_string(existing_id), "original"@, false), (candidate_key@, "summarized"@, false)],
{
    let mut ps: Vec<ProvenanceEntry> = Vec::new();
    ps.push(entry(uuid_text(existing_id), "original"));
    ps.push(entry(candidate_key.to_string(), "summarized"));
    assert(provs_view(ps@) =~= seq![(uuid_string(existing_id), "original"@, false), (candidate_key@, "summarized"@, false)]);
    ps
}

/// Whether a strategy's merged entry keeps the candidate's key (else the existing one).
pub fn keeps_candidate_key(s: MergeStrategy) -> (r: bool)
    ensures
        r == (s == MergeStrategy::Summarize || s == MergeStrategy::KeepSeparate),
{
    match s {
        MergeStrategy::Summarize | MergeStrategy::KeepSeparate => true,
        MergeStrategy::Append | MergeStrategy::WithProvenance => false,
    }
}

} // verus!
