//! What goes into ranking command suggestions: the factors each candidate
//! is weighed by, and which candidates survive deduplication once they are
//! ordered. The weighted sum itself is floating-point and is taken by the
//! caller.
use vstd::prelude::*;

use crate::context::{biases_view, bias_for, spec_bias_for};
use crate::resolver::CommandSuggestion;
use crate::text::text_eq;

verus! {

/// At most this many suggestions are shown.
pub const MAX_SUGGESTIONS: usize = 6;

/// The factors a candidate is weighed by, each in hundredths.
#[derive(Debug, Clone, Copy, PartialEq, Eq, Structural)]
pub struct RankFactors {
    /// How recent suggestions of its source are.
    pub recency: u32,
    /// Whether it matches the current desktop state.
    pub context_relevance: u32,
    /// How common its action is.
    pub frequency: u32,
    /// The intent's bias toward its source.
    pub intent_weight: u32,
}

pub open spec fn spec_recency(source: Seq<char>) -> u32 {
    if source == "workflow"@ {
        70
    } else if source == "snapshot"@ {
        50
    } else if source == "context"@ {
        80
    } else if source == "action"@ {
        40
    } else if source == "semantic"@ {
        60
    } else {
        30
    }
}

pub open spec fn spec_relevance(source: Seq<char>) -> u32 {
    if source == "context"@ {
        90
    } else {
        40
    }
}

pub open spec fn spec_frequency(action: Seq<char>) -> u32 {
    if action == "open_app"@ {
        50
    } else if action == "focus_window"@ {
        40
    } else if action == "switch_workspace"@ {
        30
    } else {
        20
    }
}

/// The factors of a candidate under an intent's source biases.
pub fn rank_factors(c: &CommandSuggestion, biases: &Vec<(&'static str, u32)>) -> (r: RankFactors)
    ensures
        r.recency == spec_recency(c.source@),
        r.context_relevance == spec_relevance(c.source@),
        r.frequency == spec_frequency(c.action@),
        r.intent_weight == spec_bias_for(biases_view(biases@), c.source@),
{
    let source = c.source.as_str();
    let action = c.action.as_str();
    let recency = if text_eq(source, "workflow") {
        70
    } else if text_eq(source, "snapshot") {
        50
    } else if text_eq(source, "context") {
        80
    } else if text_eq(source, "action") {
        40
    } else if text_eq(source, "semantic") {
        60
    } else {
        30
    };
    let context_relevance = if text_eq(source, "context") {
        90
    } else {
        40
    };
    let frequency = if text_eq(action, "open_app") {
        50
    } else if text_eq(action, "focus_window") {
        40
    } else if text_eq(action, "switch_workspace") {
        30
    } else {
        20
    };
    RankFactors { recency, context_relevance, frequency, intent_weight: bias_for(biases, source) }
}

/// Two candidates that run the same action with the same parameter.
pub open spec fn same_command(a: CommandSuggestion, b: CommandSuggestion) -> bool {
    a.action@ == b.action@ && a.param_key@ == b.param_key@ && a.param_value@ == b.param_value@
}

/// The positions of an ordered list of candidates that deduplication keeps:
/// the first, and each one that does not repeat the command of the one
/// before it.
pub open spec fn kept_positions(cands: Seq<CommandSuggestion>, n: int) -> Seq<usize>
    decreases n,
{
    if n <= 0 {
        Seq::empty()
    } else if n == 1 || !same_command(cands[n - 1], cands[n - 2]) {
        kept_positions(cands, n - 1).push((n - 1) as usize)
    } else {
        kept_positions(cands, n - 1)
    }
}

/// Deduplicate ordered candidates: the positions of those that are kept.
pub fn distinct_positions(cands: &Vec<CommandSuggestion>) -> (r: Vec<usize>)
    ensures
        r@ == kept_positions(cands@, cands@.len() as int),
{
    let mut out: Vec<usize> = Vec::new();
    let mut i: usize = 0;
    while i < cands.len()
        invariant
            i <= cands@.len(),
            out@ == kept_positions(cands@, i as int),
        decreases cands@.len() - i,
    {
        let repeat = i > 0 && text_eq(cands[i].action.as_str(), cands[i - 1].action.as_str()) && text_eq(
            cands[i].param_key.as_str(),
            cands[i - 1].param_key.as_str(),
        ) && text_eq(cands[i].param_value.as_str(), cands[i - 1].param_value.as_str());
        if !repeat {
            out.push(i);
        }
        i += 1;
    }
    out
}

} // verus!
