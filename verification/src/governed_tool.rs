//! A tool registry under governance: a tool call is stopped when governance
//! blocks the tool, or when the policy (if any applies) denies it or asks for
//! approval first; otherwise the inner registry runs it.

use vstd::prelude::*;
use crate::team::supervisor_tools::{ToolResult, ToolResultView};

verus! {

/// What the policy said of a tool call: whether it is allowed, its first reason,
/// and whether it needs approval.
pub struct PolicyVerdict {
    pub allowed: bool,
    pub first_reason: Option<String>,
    pub requires_approval: bool,
}

pub open spec fn opt_text(o: Option<String>) -> Option<Seq<char>> {
    match o {
        Some(s) => Some(s@),
        None => None,
    }
}

/// The result that stops a call, if one does.
pub open spec fn spec_gate(block_reason: Option<Seq<char>>, verdict: Option<(bool, Option<Seq<char>>, bool)>) -> Option<ToolResultView> {
    match block_reason {
        Some(r) => Some(ToolResultView { success: false, content: seq![], error: Some(r) }),
        None => match verdict {
            None => None,
            Some((allowed, first, approval)) => if !allowed {
                Some(ToolResultView {
                    success: false,
                    content: seq![],
                    error: Some(match first { Some(f) => f, None => "Tool blocked by policy"@ }),
                })
            } else if approval {
                Some(ToolResultView {
                    success: false,
                    content: "TOOL_REQUIRES_APPROVAL"@,
                    error: Some("Tool requires approval before execution"@),
                })
            } else {
                None
            },
        },
    }
}

/// Runs tools of an inner registry under a governance service.
pub struct GovernedToolRegistry<I, G> {
    inner: I,
    governance: G,
}

impl<I, G> GovernedToolRegistry<I, G> {
    pub closed spec fn parts(&self) -> (I, G) {
        (self.inner, self.governance)
    }

    pub fn new(inner: I, governance: G) -> (r: Self)
        ensures
            r.parts() == (inner, governance),
    {
        GovernedToolRegistry { inner, governance }
    }

    /// The inner registry that runs the tools.
    pub fn inner(&self) -> (i: &I)
        ensures
            *i == self.parts().0,
    {
        &self.inner
    }

    /// The result that stops a tool call, given governance's block reason for the
    /// tool and the policy's verdict (when policy sources were given); `None`
    /// means the inner registry runs the call.
    pub fn gate(&self, block_reason: Option<String>, verdict: Option<PolicyVerdict>) -> (r: Option<ToolResult>)
        ensures
            (match r { Some(t) => Some(t@), None => None }) == spec_gate(
                opt_text(block_reason),
                match verdict { Some(v) => Some((v.allowed, opt_text(v.first_reason), v.requires_approval)), None => None },
            ),
    {
        match block_reason {
            Some(reason) => {
                return Some(ToolResult { success: false, content: String::new(), error: Some(reason) });
            },
            None => {},
        }
        match verdict {
            None => None,
            Some(v) => {
                if !v.allowed {
                    let reason = match v.first_reason {
                        Some(f) => f,
                        None => String::from_str("Tool blocked by policy"),
                    };
                    Some(ToolResult { success: false, content: String::new(), error: Some(reason) })
                } else if v.requires_approval {
                    Some(ToolResult {
                        success: false,
                        content: String::from_str("TOOL_REQUIRES_APPROVAL"),
                        error: Some(String::from_str("Tool requires approval before execution")),
                    })
                } else {
                    None
                }
            },
        }
    }
}

/// A tool call goes through only when governance does not block it and the
/// policy, if any, allows it without approval.
pub proof fn lemma_call_runs_only_when_permitted(block_reason: Option<Seq<char>>, verdict: Option<(bool, Option<Seq<char>>, bool)>)
    ensures
        spec_gate(block_reason, verdict) is None <==> (block_reason is None && match verdict {
            Some((allowed, _, approval)) => allowed && !approval,
            None => true,
        }),
{
}

} // verus!
