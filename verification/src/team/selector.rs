//! Resolving a member selector to candidate team members, from the team's members,
//! their agent instances and the capability profiles bound to agent definitions.

use vstd::prelude::*;
use crate::text::{chars_of, contains, lowercase_text, spec_contains, to_lowercase, text_is};

verus! {

/// How a selector picks members.
#[derive(Debug, Clone, Copy, PartialEq, Eq, Structural)]
pub enum SelectorType {
    Role,
    Any,
    Capability,
    Direct,
}

/// A request for team members: by role, any, by capability profile names, or one
/// agent definition directly.
pub struct MemberSelector {
    pub selector_type: SelectorType,
    pub capability_profiles: Vec<String>,
    pub role: Option<String>,
    pub agent_definition_id: Option<u128>,
}

/// A member of a team.
pub struct TeamMember {
    pub id: u128,
    pub agent_instance_id: u128,
    pub role: String,
}

/// What the resolver reads of an agent instance: its id and its definition.
#[derive(Debug, Clone, Copy, PartialEq, Eq, Structural)]
pub struct InstanceDefinition {
    pub instance_id: u128,
    pub agent_definition_id: u128,
}

/// A capability profile.
pub struct CapabilityProfile {
    pub id: u128,
    pub name: String,
}

/// A binding of a capability profile to an agent definition.
#[derive(Debug, Clone, Copy, PartialEq, Eq, Structural)]
pub struct CapabilityBinding {
    pub agent_definition_id: u128,
    pub capability_profile_id: u128,
}

/// The policy summary that a candidate carries.
pub struct PolicyCheckSummary {
    pub resource_available: bool,
    pub approval_required: bool,
    pub risk_level: String,
}

/// A member that a selector resolved to, with its capabilities and why it was chosen.
pub struct CandidateMember {
    pub team_member_id: u128,
    pub agent_instance_id: u128,
    pub agent_definition_id: u128,
    pub role: String,
    pub capability_profiles: Vec<String>,
    pub selection_rationale: String,
    pub policy_check_summary: PolicyCheckSummary,
}

/// A candidate as plain values: member, instance and definition ids, role,
/// capability names, rationale, and its policy summary (whether the resource is
/// available, whether approval is required, the risk level).
pub struct CandidateView {
    pub team_member_id: u128,
    pub agent_instance_id: u128,
    pub agent_definition_id: u128,
    pub role: Seq<char>,
    pub capability_profiles: Seq<Seq<char>>,
    pub selection_rationale: Seq<char>,
    pub policy: (bool, bool, Seq<char>),
}

impl View for CandidateMember {
    type V = CandidateView;

    open spec fn view(&self) -> CandidateView {
        CandidateView {
            team_member_id: self.team_member_id,
            agent_instance_id: self.agent_instance_id,
            agent_definition_id: self.agent_definition_id,
            role: self.role@,
            capability_profiles: self.capability_profiles@.map_values(|s: String| s@),
            selection_rationale: self.selection_rationale@,
            policy: (
                self.policy_check_summary.resource_available,
                self.policy_check_summary.approval_required,
                self.policy_check_summary.risk_level@,
            ),
        }
    }
}

/// Whether a member passes a selector's own test: a role selector with a role
/// wants that role; every other selector lets the member through here.
pub open spec fn spec_member_matches(role: Seq<char>, selector_type: SelectorType, wanted_role: Option<Seq<char>>) -> bool {
    match selector_type {
        SelectorType::Role => match wanted_role {
            Some(r) => role == r,
            None => true,
        },
        _ => true,
    }
}

pub open spec fn opt_view(o: Option<String>) -> Option<Seq<char>> {
    match o {
        Some(s) => Some(s@),
        None => None,
    }
}

/// Whether the profile named `pname` matches one of the wanted names: its lowercase
/// name contains the lowercase of one of them.
pub open spec fn profile_matches(pname: Seq<char>, wanted: Seq<Seq<char>>) -> bool {
    exists|k: int| 0 <= k < wanted.len() && spec_contains(lowercase_text(pname), lowercase_text(#[trigger] wanted[k]))
}

/// Whether the agent definition `d` is capable for the wanted profile names: some
/// binding gives it a profile that matches.
pub open spec fn is_capable(
    d: u128,
    wanted: Seq<Seq<char>>,
    profiles: Seq<(u128, Seq<char>)>,
    bindings: Seq<CapabilityBinding>,
) -> bool {
    exists|b: int, p: int|
        0 <= b < bindings.len() && 0 <= p < profiles.len() && #[trigger] bindings[b].agent_definition_id == d
            && #[trigger] profiles[p].0 == bindings[b].capability_profile_id && profile_matches(profiles[p].1, wanted)
}

pub open spec fn profile_views(ps: Seq<CapabilityProfile>) -> Seq<(u128, Seq<char>)> {
    ps.map_values(|p: CapabilityProfile| (p.id, p.name@))
}

pub open spec fn text_views(v: Seq<String>) -> Seq<Seq<char>> {
    v.map_values(|s: String| s@)
}

/// The names of the profiles bound to definition `d`, in the order of `profiles`.
pub open spec fn capabilities_of(d: u128, profiles: Seq<(u128, Seq<char>)>, bindings: Seq<CapabilityBinding>) -> Seq<Seq<char>>
    decreases profiles.len(),
{
    if profiles.len() == 0 {
        seq![]
    } else {
        capabilities_of(d, profiles.drop_last(), bindings) + if exists|b: int|
            0 <= b < bindings.len() && #[trigger] bindings[b].agent_definition_id == d
                && bindings[b].capability_profile_id == profiles.last().0 {
            seq![profiles.last().1]
        } else {
            seq![]
        }
    }
}

/// The definition of the last instance listed with id `id` (a later listing of the
/// same id replaces an earlier one).
pub open spec fn definition_of(instances: Seq<InstanceDefinition>, id: u128) -> Option<u128>
    decreases instances.len(),
{
    if instances.len() == 0 {
        None
    } else if instances.last().instance_id == id {
        Some(instances.last().agent_definition_id)
    } else {
        definition_of(instances.drop_last(), id)
    }
}

/// The rationale text of a candidate.
pub open spec fn rationale(t: SelectorType, role: Seq<char>) -> Seq<char> {
    "Matched "@ + selector_type_name(t) + " selector with role: "@ + role
}

pub open spec fn selector_type_name(t: SelectorType) -> Seq<char> {
    match t {
        SelectorType::Role => "Role"@,
        SelectorType::Any => "Any"@,
        SelectorType::Capability => "Capability"@,
        SelectorType::Direct => "Direct"@,
    }
}

/// What a selector makes of one member, if it becomes a candidate.
pub open spec fn candidate_for(
    selector_type: SelectorType,
    wanted_role: Option<Seq<char>>,
    wanted: Seq<Seq<char>>,
    direct: Option<u128>,
    m: (u128, u128, Seq<char>),
    instances: Seq<InstanceDefinition>,
    profiles: Seq<(u128, Seq<char>)>,
    bindings: Seq<CapabilityBinding>,
) -> Option<CandidateView> {
    if !spec_member_matches(m.2, selector_type, wanted_role) {
        None
    } else {
        match definition_of(instances, m.1) {
            None => None,
            Some(d) => if selector_type == SelectorType::Capability && !capable_list(wanted, profiles, bindings).contains(d) {
                None
            } else if direct.is_some() && direct.unwrap() != d {
                None
            } else {
                Some(CandidateView {
                    team_member_id: m.0,
                    agent_instance_id: m.1,
                    agent_definition_id: d,
                    role: m.2,
                    capability_profiles: capabilities_of(d, profiles, bindings),
                    selection_rationale: rationale(selector_type, m.2),
                    policy: (true, false, "low"@),
                })
            },
        }
    }
}

pub open spec fn member_views(ms: Seq<TeamMember>) -> Seq<(u128, u128, Seq<char>)> {
    ms.map_values(|m: TeamMember| (m.id, m.agent_instance_id, m.role@))
}

/// The candidates of a selector among members, in the members' order.
pub open spec fn spec_resolve(
    selector_type: SelectorType,
    wanted_role: Option<Seq<char>>,
    wanted: Seq<Seq<char>>,
    direct: Option<u128>,
    ms: Seq<(u128, u128, Seq<char>)>,
    instances: Seq<InstanceDefinition>,
    profiles: Seq<(u128, Seq<char>)>,
    bindings: Seq<CapabilityBinding>,
) -> Seq<CandidateView>
    decreases ms.len(),
{
    if ms.len() == 0 {
        seq![]
    } else {
        spec_resolve(selector_type, wanted_role, wanted, direct, ms.drop_last(), instances, profiles, bindings)
            + match candidate_for(selector_type, wanted_role, wanted, direct, ms.last(), instances, profiles, bindings) {
            Some(c) => seq![c],
            None => seq![],
        }
    }
}

fn contains_id(v: &Vec<u128>, d: u128) -> (r: bool)
    ensures
        r == v@.contains(d),
{
    let mut i: usize = 0;
    while i < v.len()
        invariant
            i <= v@.len(),
            forall|k: int| 0 <= k < i ==> v@[k] != d,
        decreases v@.len() - i,
    {
        if v[i] == d {
            return true;
        }
        i = i + 1;
    }
    false
}

/// Whether the lowercase of `pname` contains the lowercase of one of `wanted`.
fn matches_any(pname: &str, wanted: &Vec<String>) -> (r: bool)
    ensures
        r == profile_matches(pname@, text_views(wanted@)),
{
    let lp = to_lowercase(pname);
    let lpc = chars_of(lp.as_str());
    let mut k: usize = 0;
    while k < wanted.len()
        invariant
            k <= wanted@.len(),
            lpc@ == lowercase_text(pname@),
            forall|j: int| 0 <= j < k ==> !spec_contains(lowercase_text(pname@), lowercase_text(#[trigger] text_views(wanted@)[j])),
        decreases wanted@.len() - k,
    {
        let lw = to_lowercase(wanted[k].as_str());
        let lwc = chars_of(lw.as_str());
        if contains(lpc.as_slice(), lwc.as_slice()) {
            assert(spec_contains(lowercase_text(pname@), lowercase_text(text_views(wanted@)[k as int])));
            return true;
        }
        k = k + 1;
    }
    false
}

/// The ids of the profiles that match the wanted names, in order.
pub open spec fn matching_ids(pv: Seq<(u128, Seq<char>)>, wanted: Seq<Seq<char>>) -> Seq<u128>
    decreases pv.len(),
{
    if pv.len() == 0 {
        seq![]
    } else {
        matching_ids(pv.drop_last(), wanted) + if profile_matches(pv.last().1, wanted) { seq![pv.last().0] } else { seq![] }
    }
}

/// The definitions of the bindings whose profile is among `ids`, in order.
pub open spec fn bound_defs(bs: Seq<CapabilityBinding>, ids: Seq<u128>) -> Seq<u128>
    decreases bs.len(),
{
    if bs.len() == 0 {
        seq![]
    } else {
        bound_defs(bs.drop_last(), ids) + if ids.contains(bs.last().capability_profile_id) {
            seq![bs.last().agent_definition_id]
        } else {
            seq![]
        }
    }
}

/// The capable definitions as the resolver lists them (a definition may repeat).
pub open spec fn capable_list(wanted: Seq<Seq<char>>, pv: Seq<(u128, Seq<char>)>, bs: Seq<CapabilityBinding>) -> Seq<u128> {
    if wanted.len() == 0 { seq![] } else { bound_defs(bs, matching_ids(pv, wanted)) }
}

proof fn lemma_matching_ids(pv: Seq<(u128, Seq<char>)>, wanted: Seq<Seq<char>>, id: u128)
    ensures
        matching_ids(pv, wanted).contains(id) <==> exists|q: int| 0 <= q < pv.len() && #[trigger] pv[q].0 == id && profile_matches(pv[q].1, wanted),
    decreases pv.len(),
{
    if pv.len() > 0 {
        let pre = pv.drop_last();
        lemma_matching_ids(pre, wanted, id);
        let tail = if profile_matches(pv.last().1, wanted) { seq![pv.last().0] } else { seq![] };
        let m = matching_ids(pre, wanted);
        assert(matching_ids(pv, wanted) == m + tail);
        if matching_ids(pv, wanted).contains(id) {
            let k = choose|k: int| 0 <= k < (m + tail).len() && (m + tail)[k] == id;
            if k < m.len() {
                assert(m[k] == id);
                assert(m.contains(id));
                let q = choose|q: int| 0 <= q < pre.len() && #[trigger] pre[q].0 == id && profile_matches(pre[q].1, wanted);
                assert(pv[q] == pre[q]);
            } else {
                assert(pv[pv.len() - 1].0 == id);
            }
        }
        if exists|q: int| 0 <= q < pv.len() && #[trigger] pv[q].0 == id && profile_matches(pv[q].1, wanted) {
            let q = choose|q: int| 0 <= q < pv.len() && #[trigger] pv[q].0 == id && profile_matches(pv[q].1, wanted);
            if q < pv.len() - 1 {
                assert(pre[q] == pv[q]);
                assert(m.contains(id));
                let k = choose|k: int| 0 <= k < m.len() && m[k] == id;
                assert((m + tail)[k] == id);
            } else {
                assert((m + tail)[m.len() as int] == id);
            }
        }
    }
}

proof fn lemma_bound_defs(bs: Seq<CapabilityBinding>, ids: Seq<u128>, d: u128)
    ensures
        bound_defs(bs, ids).contains(d) <==> exists|c: int| 0 <= c < bs.len() && #[trigger] bs[c].agent_definition_id == d
            && ids.contains(bs[c].capability_profile_id),
    decreases bs.len(),
{
    if bs.len() > 0 {
        let pre = bs.drop_last();
        lemma_bound_defs(pre, ids, d);
        let tail = if ids.contains(bs.last().capability_profile_id) { seq![bs.last().agent_definition_id] } else { seq![] };
        let m = bound_defs(pre, ids);
        assert(bound_defs(bs, ids) == m + tail);
        if bound_defs(bs, ids).contains(d) {
            let k = choose|k: int| 0 <= k < (m + tail).len() && (m + tail)[k] == d;
            if k < m.len() {
                assert(m[k] == d);
                assert(m.contains(d));
                let c = choose|c: int| 0 <= c < pre.len() && #[trigger] pre[c].agent_definition_id == d && ids.contains(pre[c].capability_profile_id);
                assert(bs[c] == pre[c]);
            } else {
                assert(bs[bs.len() - 1].agent_definition_id == d);
            }
        }
        if exists|c: int| 0 <= c < bs.len() && #[trigger] bs[c].agent_definition_id == d && ids.contains(bs[c].capability_profile_id) {
            let c = choose|c: int| 0 <= c < bs.len() && #[trigger] bs[c].agent_definition_id == d && ids.contains(bs[c].capability_profile_id);
            if c < bs.len() - 1 {
                assert(pre[c] == bs[c]);
                assert(m.contains(d));
                let k = choose|k: int| 0 <= k < m.len() && m[k] == d;
                assert((m + tail)[k] == d);
            } else {
                assert((m + tail)[m.len() as int] == d);
            }
        }
    }
}

/// A definition is on the capable list exactly when some binding gives it a profile
/// whose name matches one of the wanted names.
pub proof fn lemma_capable_list_membership(wanted: Seq<Seq<char>>, pv: Seq<(u128, Seq<char>)>, bs: Seq<CapabilityBinding>, d: u128)
    ensures
        capable_list(wanted, pv, bs).contains(d) <==> (wanted.len() > 0 && is_capable(d, wanted, pv, bs)),
{
    if wanted.len() > 0 {
        let ids = matching_ids(pv, wanted);
        lemma_bound_defs(bs, ids, d);
        if capable_list(wanted, pv, bs).contains(d) {
            let c = choose|c: int| 0 <= c < bs.len() && #[trigger] bs[c].agent_definition_id == d && ids.contains(bs[c].capability_profile_id);
            lemma_matching_ids(pv, wanted, bs[c].capability_profile_id);
            let q = choose|q: int| 0 <= q < pv.len() && #[trigger] pv[q].0 == bs[c].capability_profile_id && profile_matches(pv[q].1, wanted);
            assert(bs[c].agent_definition_id == d && pv[q].0 == bs[c].capability_profile_id);
        }
        if is_capable(d, wanted, pv, bs) {
            let (c, q) = choose|c: int, q: int|
                0 <= c < bs.len() && 0 <= q < pv.len() && #[trigger] bs[c].agent_definition_id == d
                    && #[trigger] pv[q].0 == bs[c].capability_profile_id && profile_matches(pv[q].1, wanted);
            lemma_matching_ids(pv, wanted, bs[c].capability_profile_id);
            assert(ids.contains(bs[c].capability_profile_id));
        }
    }
}

/// The agent definitions capable for the wanted profile names: those bound to a
/// profile whose lowercase name contains the lowercase of a wanted name, one entry
/// per such binding. With no wanted names, none.
pub fn resolve_capable_agents(
    profile_names: &Vec<String>,
    profiles: &Vec<CapabilityProfile>,
    bindings: &Vec<CapabilityBinding>,
) -> (r: Vec<u128>)
    ensures
        r@ == capable_list(text_views(profile_names@), profile_views(profiles@), bindings@),
        forall|d: u128| r@.contains(d) <==> (profile_names@.len() > 0 && is_capable(
            d,
            text_views(profile_names@),
            profile_views(profiles@),
            bindings@,
        )),
{
    let ghost wanted = text_views(profile_names@);
    let ghost pv = profile_views(profiles@);
    proof {
        assert forall|d: u128| capable_list(wanted, pv, bindings@).contains(d) <==> (profile_names@.len() > 0
            && is_capable(d, wanted, pv, bindings@)) by {
            lemma_capable_list_membership(wanted, pv, bindings@, d);
        }
    }
    if profile_names.len() == 0 {
        return Vec::new();
    }
    let mut matching: Vec<u128> = Vec::new();
    let mut p: usize = 0;
    while p < profiles.len()
        invariant
            p <= profiles@.len(),
            wanted == text_views(profile_names@),
            pv == profile_views(profiles@),
            matching@ == matching_ids(pv.take(p as int), wanted),
        decreases profiles@.len() - p,
    {
        assert(pv.take(p + 1).drop_last() =~= pv.take(p as int));
        assert(pv.take(p + 1).last() == (profiles@[p as int].id, profiles@[p as int].name@));
        if matches_any(profiles[p].name.as_str(), profile_names) {
            matching.push(profiles[p].id);
        }
        p = p + 1;
    }
    assert(pv.take(profiles@.len() as int) =~= pv);
    let mut r: Vec<u128> = Vec::new();
    if matching.len() == 0 {
        assert(bound_defs(bindings@, matching@) =~= seq![]) by {
            lemma_empty_ids(bindings@, matching@);
        }
        return r;
    }
    let mut b: usize = 0;
    while b < bindings.len()
        invariant
            b <= bindings@.len(),
            r@ == bound_defs(bindings@.take(b as int), matching@),
        decreases bindings@.len() - b,
    {
        assert(bindings@.take(b + 1).drop_last() =~= bindings@.take(b as int));
        let bd = bindings[b];
        if contains_id(&matching, bd.capability_profile_id) {
            r.push(bd.agent_definition_id);
        }
        b = b + 1;
    }
    assert(bindings@.take(bindings@.len() as int) =~= bindings@);
    r
}

proof fn lemma_empty_ids(bs: Seq<CapabilityBinding>, ids: Seq<u128>)
    requires
        ids.len() == 0,
    ensures
        bound_defs(bs, ids) == Seq::<u128>::empty(),
    decreases bs.len(),
{
    if bs.len() > 0 {
        lemma_empty_ids(bs.drop_last(), ids);
    }
}

/// The names of the capability profiles bound to an agent definition, in the order
/// of the profile list.
pub fn member_capabilities(
    agent_definition_id: u128,
    profiles: &Vec<CapabilityProfile>,
    bindings: &Vec<CapabilityBinding>,
) -> (names: Vec<String>)
    ensures
        text_views(names@) == capabilities_of(agent_definition_id, profile_views(profiles@), bindings@),
{
    let ghost pv = profile_views(profiles@);
    let mut names: Vec<String> = Vec::new();
    let mut p: usize = 0;
    while p < profiles.len()
        invariant
            p <= profiles@.len(),
            pv == profile_views(profiles@),
            text_views(names@) == capabilities_of(agent_definition_id, pv.take(p as int), bindings@),
        decreases profiles@.len() - p,
    {
        let pid = profiles[p].id;
        let mut bound = false;
        let mut b: usize = 0;
        while b < bindings.len()
            invariant
                b <= bindings@.len(),
                bound == exists|c: int| 0 <= c < b && #[trigger] bindings@[c].agent_definition_id == agent_definition_id
                    && bindings@[c].capability_profile_id == pid,
            decreases bindings@.len() - b,
        {
            if bindings[b].agent_definition_id == agent_definition_id && bindings[b].capability_profile_id == pid {
                bound = true;
            }
            proof {
                if bound && !(exists|c: int| 0 <= c < b && #[trigger] bindings@[c].agent_definition_id == agent_definition_id
                    && bindings@[c].capability_profile_id == pid) {
                    assert(bindings@[b as int].agent_definition_id == agent_definition_id);
                }
            }
            b = b + 1;
        }
        proof {
            assert(pv.take(p + 1).drop_last() =~= pv.take(p as int));
            assert(pv.take(p + 1).last() == (pid, profiles@[p as int].name@));
        }
        if bound {
            names.push(profiles[p].name.clone());
            assert(text_views(names@) =~= capabilities_of(agent_definition_id, pv.take(p + 1), bindings@));
        } else {
            assert(text_views(names@) =~= capabilities_of(agent_definition_id, pv.take(p + 1), bindings@));
        }
        p = p + 1;
    }
    assert(pv.take(profiles@.len() as int) =~= pv);
    names
}

fn find_definition(instances: &Vec<InstanceDefinition>, id: u128) -> (r: Option<u128>)
    ensures
        r == definition_of(instances@, id),
{
    let mut i: usize = instances.len();
    assert(instances@.take(i as int) =~= instances@);
    while i > 0
        invariant
            i <= instances@.len(),
            definition_of(instances@, id) == definition_of(instances@.take(i as int), id),
        decreases i,
    {
        let inst = instances[i - 1];
        assert(instances@.take(i as int).drop_last() =~= instances@.take(i - 1));
        if inst.instance_id == id {
            return Some(inst.agent_definition_id);
        }
        i = i - 1;
    }
    None
}

fn selector_type_text(t: SelectorType) -> (s: &'static str)
    ensures
        s@ == selector_type_name(t),
{
    match t {
        SelectorType::Role => "Role",
        SelectorType::Any => "Any",
        SelectorType::Capability => "Capability",
        SelectorType::Direct => "Direct",
    }
}

/// Resolves members to candidates for a selector, given the team's members, their
/// agent instances, and the capability profiles and bindings.
pub struct SelectorResolver<R> {
    team_member_repo: R,
    agent_instance_repo: R,
    capability_profile_repo: R,
    capability_binding_repo: R,
}

impl<R> SelectorResolver<R> {
    pub closed spec fn member_repo_spec(&self) -> R {
        self.team_member_repo
    }

    pub closed spec fn repos(&self) -> (R, R, R, R) {
        (self.team_member_repo, self.agent_instance_repo, self.capability_profile_repo, self.capability_binding_repo)
    }

    /// A resolver over the team member, agent instance, capability profile and
    /// capability binding repositories.
    pub fn new(team_member_repo: R, agent_instance_repo: R, capability_profile_repo: R, capability_binding_repo: R) -> (s: Self)
        ensures
            s.repos() == (team_member_repo, agent_instance_repo, capability_profile_repo, capability_binding_repo),
            s.member_repo_spec() == team_member_repo,
    {
        SelectorResolver { team_member_repo, agent_instance_repo, capability_profile_repo, capability_binding_repo }
    }

    /// The team member repository.
    pub fn team_member_repo(&self) -> (r: &R)
        ensures
            *r == self.member_repo_spec(),
    {
        &self.team_member_repo
    }

    /// Whether a member passes the selector's own test.
    pub fn member_matches_selector(&self, member: &TeamMember, selector: &MemberSelector) -> (r: bool)
        ensures
            r == spec_member_matches(member.role@, selector.selector_type, opt_view(selector.role)),
    {
        match selector.selector_type {
            SelectorType::Role => match &selector.role {
                Some(r) => text_is(member.role.as_str(), r.as_str()),
                None => true,
            },
            SelectorType::Any => true,
            SelectorType::Capability | SelectorType::Direct => true,
        }
    }

    /// The candidates for a selector: each member that passes the selector's test,
    /// has a listed agent instance, is capable when the selector asks by capability,
    /// and has the wanted definition when one is named; with its capabilities and
    /// the rationale `Matched <type> selector with role: <role>`.
    pub fn resolve(
        &self,
        selector: &MemberSelector,
        members: &Vec<TeamMember>,
        instances: &Vec<InstanceDefinition>,
        profiles: &Vec<CapabilityProfile>,
        bindings: &Vec<CapabilityBinding>,
    ) -> (cs: Vec<CandidateMember>)
        ensures
            cs@.len() == spec_resolve(
                selector.selector_type,
                opt_view(selector.role),
                text_views(selector.capability_profiles@),
                selector.agent_definition_id,
                member_views(members@),
                instances@,
                profile_views(profiles@),
                bindings@,
            ).len(),
            forall|k: int| 0 <= k < cs@.len() ==> #[trigger] cs@[k]@ == spec_resolve(
                selector.selector_type,
                opt_view(selector.role),
                text_views(selector.capability_profiles@),
                selector.agent_definition_id,
                member_views(members@),
                instances@,
                profile_views(profiles@),
                bindings@,
            )[k],
    {
        let ghost st = selector.selector_type;
        let ghost wr = opt_view(selector.role);
        let ghost wanted = text_views(selector.capability_profiles@);
        let ghost direct = selector.agent_definition_id;
        let ghost mv = member_views(members@);
        let ghost pv = profile_views(profiles@);
        let capable = resolve_capable_agents(&selector.capability_profiles, profiles, bindings);
        let mut cs: Vec<CandidateMember> = Vec::new();
        let mut i: usize = 0;
        while i < members.len()
            invariant
                i <= members@.len(),
                st == selector.selector_type,
                wr == opt_view(selector.role),
                wanted == text_views(selector.capability_profiles@),
                direct == selector.agent_definition_id,
                mv == member_views(members@),
                pv == profile_views(profiles@),
                capable@ == capable_list(wanted, pv, bindings@),
                cs@.len() == spec_resolve(st, wr, wanted, direct, mv.take(i as int), instances@, pv, bindings@).len(),
                forall|k: int| 0 <= k < cs@.len() ==> #[trigger] cs@[k]@ == spec_resolve(st, wr, wanted, direct, mv.take(i as int), instances@, pv, bindings@)[k],
            decreases members@.len() - i,
        {
            let member = &members[i];
            proof {
                assert(mv.take(i + 1).drop_last() =~= mv.take(i as int));
                assert(mv.take(i + 1).last() == (member.id, member.agent_instance_id, member.role@));
            }
            let ghost before = spec_resolve(st, wr, wanted, direct, mv.take(i as int), instances@, pv, bindings@);
            let ghost opt = candidate_for(st, wr, wanted, direct, (member.id, member.agent_instance_id, member.role@), instances@, pv, bindings@);
            let mut take = self.member_matches_selector(member, selector);
            let mut def: u128 = 0;
            if take {
                match find_definition(instances, member.agent_instance_id) {
                    Some(d) => { def = d; },
                    None => { take = false; },
                }
            }
            if take && selector.selector_type == SelectorType::Capability && !contains_id(&capable, def) {
                take = false;
            }
            if take {
                match selector.agent_definition_id {
                    Some(d) => { if d != def { take = false; } },
                    None => {},
                }
            }
            if take {
                let caps = member_capabilities(def, profiles, bindings);
                let parts = ["Matched ", selector_type_text(selector.selector_type), " selector with role: ", member.role.as_str()];
                let why = crate::text::concat_strs(&parts);
                proof {
                    reveal_with_fuel(crate::text::concat_views, 5);
                    assert(parts@.drop_last().drop_last().drop_last().drop_last() =~= Seq::<&str>::empty());
                }
                let c = CandidateMember {
                    team_member_id: member.id,
                    agent_instance_id: member.agent_instance_id,
                    agent_definition_id: def,
                    role: member.role.clone(),
                    capability_profiles: caps,
                    selection_rationale: why,
                    policy_check_summary: PolicyCheckSummary {
                        resource_available: true,
                        approval_required: false,
                        risk_level: String::from_str("low"),
                    },
                };
                assert(opt == Some(c@));
                cs.push(c);
                proof {
                    assert forall|k: int| 0 <= k < cs@.len() implies #[trigger] cs@[k]@ == spec_resolve(st, wr, wanted, direct, mv.take(i + 1), instances@, pv, bindings@)[k] by {
                        if k < cs@.len() - 1 {
                            assert(cs@[k] == cs@.drop_last()[k]);
                        }
                    }
                }
            } else {
                assert(opt is None);
            }
            i = i + 1;
        }
        assert(mv.take(members@.len() as int) =~= mv);
        cs
    }
}

} // verus!
