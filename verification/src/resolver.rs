//! Candidate commands for a query: matching it against running plans,
//! snapshots, desktop actions, the focused window and recent queries.
use vstd::prelude::*;
use vstd::string::*;
use vstd::utf8::*;

use crate::context::{ActivePlan, AggregatedContext, DesktopState, IntentType, RecentSnapshot};
use crate::ids::{format_id, new_id};
use crate::text::{
    contains_exec, contains_text, split_words, starts_with_exec, starts_with_text, text_eq, to_lower,
    lowercase, words,
};

verus! {

/// `s` with every `from` replaced by `to`.
pub open spec fn replace_char(s: Seq<char>, from: char, to: char) -> Seq<char> {
    s.map_values(|c: char| if c == from { to } else { c })
}

fn replace_char_text(s: &str, from: char, to: &str) -> (r: String)
    requires
        to@.len() == 1,
    ensures
        r@ == replace_char(s@, from, to@[0]),
{
    let n = s.unicode_len();
    let mut r = String::new();
    let mut i: usize = 0;
    while i < n
        invariant
            n == s@.len(),
            i <= n,
            to@.len() == 1,
            r@ == replace_char(s@.take(i as int), from, to@[0]),
        decreases n - i,
    {
        let c = s.get_char(i);
        let piece = if c == from { to } else { s.substring_char(i, i + 1) };
        r.append(piece);
        assert(s@.take(i + 1) =~= s@.take(i as int).push(c));
        assert(r@ =~= replace_char(s@.take(i + 1), from, to@[0]));
        i += 1;
    }
    assert(s@.take(i as int) =~= s@);
    r
}

/// The first `n` bytes of `s`, read back as characters.
pub open spec fn byte_prefix(s: Seq<char>, n: int) -> Seq<char> {
    decode_utf8(encode_utf8(s).take(n))
}

fn prefix_bytes(s: &str, n: usize) -> (r: &str)
    requires
        n <= encode_utf8(s@).len(),
        is_char_boundary(encode_utf8(s@), n as int),
    ensures
        r@ == byte_prefix(s@, n as int),
{
    broadcast use encode_utf8_decode_utf8;

    let (head, _) = s.split_at(n);
    assert(encode_utf8(head@) == head.spec_bytes());
    assert(decode_utf8(encode_utf8(head@)) == head@);
    head
}

/// A timestamp shortened for display: an RFC 3339 text longer than 19
/// bytes keeps its first 19 (date and time to the second) with the `T`
/// written as a space; a shorter one is kept whole.
pub open spec fn spec_format_timestamp(s: Seq<char>) -> Seq<char> {
    if encode_utf8(s).len() > 19 {
        replace_char(byte_prefix(s, 19), 'T', ' ')
    } else {
        s
    }
}

pub fn format_timestamp(rfc3339: &str) -> (r: String)
    requires
        encode_utf8(rfc3339@).len() > 19 ==> is_char_boundary(encode_utf8(rfc3339@), 19),
    ensures
        r@ == spec_format_timestamp(rfc3339@),
{
    if rfc3339.as_bytes().len() > 19 {
        let date_part = prefix_bytes(rfc3339, 19);
        proof {
            reveal_strlit(" ");
        }
        replace_char_text(date_part, 'T', " ")
    } else {
        rfc3339.to_owned()
    }
}

/// `s` cut to `max_len` bytes: kept whole when it fits, else its first
/// `max_len - 3` bytes (none when `max_len` is below 3) followed by "...".
pub open spec fn spec_truncate(s: Seq<char>, max_len: nat) -> Seq<char> {
    if encode_utf8(s).len() <= max_len {
        s
    } else {
        byte_prefix(s, if max_len >= 3 { max_len - 3 } else { 0 }) + "..."@
    }
}

pub fn truncate(s: &str, max_len: usize) -> (r: String)
    requires
        encode_utf8(s@).len() > max_len ==> is_char_boundary(
            encode_utf8(s@),
            if max_len >= 3 { max_len - 3 } else { 0 },
        ),
    ensures
        r@ == spec_truncate(s@, max_len as nat),
{
    if s.as_bytes().len() <= max_len {
        s.to_owned()
    } else {
        let cut = if max_len >= 3 { max_len - 3 } else { 0 };
        String::from_str(prefix_bytes(s, cut)).concat("...")
    }
}


// ── Similarity ───────────────────────────────────────────────

/// A score in `[0, 1]`, kept exactly as `num / den`.
#[derive(Debug, Clone, Copy, PartialEq, Eq, Structural)]
pub struct Score {
    pub num: u128,
    pub den: u128,
}

pub open spec fn zero() -> Score {
    Score { num: 0, den: 1 }
}

/// `s` is above `n / d`.
pub open spec fn above(s: Score, n: int, d: int) -> bool {
    s.num * d > n * s.den
}

fn above_exec(s: Score, n: u128, d: u128) -> (r: bool)
    requires
        s.num <= s.den,
        s.den <= 0x1_0000_0000_0000_0000_0000_0000,
        n <= 100,
        d <= 100,
    ensures
        r == above(s, n as int, d as int),
{
    assert(s.num * d <= 0x1_0000_0000_0000_0000_0000_0000 * 100) by (nonlinear_arith)
        requires
            s.num <= 0x1_0000_0000_0000_0000_0000_0000,
            d <= 100,
    ;
    assert(n * s.den <= 100 * 0x1_0000_0000_0000_0000_0000_0000) by (nonlinear_arith)
        requires
            s.den <= 0x1_0000_0000_0000_0000_0000_0000,
            n <= 100,
    ;
    s.num * d > n * s.den
}

/// Whether a lower-cased query word hits a lower-cased target: it occurs in
/// it, or it and one of the target's words start one another.
pub open spec fn token_hits(target: Seq<char>, token: Seq<char>) -> bool {
    contains_text(target, token) || exists|j: int|
        0 <= j < words(target).len() && (starts_with_text(#[trigger] words(target)[j], token) || starts_with_text(
            token,
            words(target)[j],
        ))
}

/// How many of the query's words hit the target.
pub open spec fn count_hits(tokens: Seq<Seq<char>>, target: Seq<char>) -> nat
    decreases tokens.len(),
{
    if tokens.len() == 0 {
        0
    } else {
        count_hits(tokens.drop_last(), target) + if token_hits(target, lowercase(tokens.last())) {
            1nat
        } else {
            0nat
        }
    }
}

/// The fuzzy similarity of a query and a target: none when either is empty
/// or the query has no words; one for the same text (after lower-casing);
/// the share of query words that hit the target, raised by 3/10 (to at most
/// one) when the target starts with the query.
pub open spec fn spec_fuzzy(query: Seq<char>, target: Seq<char>) -> Score {
    let tokens = words(query);
    let tl = lowercase(target);
    let ql = lowercase(query);
    let m = count_hits(tokens, tl);
    let t = tokens.len();
    if query.len() == 0 || target.len() == 0 || t == 0 {
        zero()
    } else if tl == ql {
        Score { num: 1, den: 1 }
    } else if starts_with_text(tl, ql) {
        if 10 * m + 3 * t >= 10 * t {
            Score { num: 1, den: 1 }
        } else {
            Score { num: (10 * m + 3 * t) as u128, den: (10 * t) as u128 }
        }
    } else {
        Score { num: m as u128, den: t as u128 }
    }
}

pub open spec fn well_formed(s: Score) -> bool {
    0 < s.den <= 0x1_0000_0000_0000_0000_0000_0000 && s.num <= s.den
}

proof fn lemma_count_hits_le(tokens: Seq<Seq<char>>, target: Seq<char>)
    ensures
        count_hits(tokens, target) <= tokens.len(),
    decreases tokens.len(),
{
    if tokens.len() > 0 {
        lemma_count_hits_le(tokens.drop_last(), target);
    }
}

fn token_hits_exec(target: &str, target_words: &Vec<String>, token: &str) -> (r: bool)
    requires
        target_words@.map_values(|w: String| w@) == words(target@),
    ensures
        r == token_hits(target@, token@),
{
    if contains_exec(target, token) {
        return true;
    }
    let ghost ws = words(target@);
    let mut j: usize = 0;
    while j < target_words.len()
        invariant
            j <= target_words@.len(),
            target_words@.map_values(|w: String| w@) == ws,
            ws == words(target@),
            forall|k: int|
                0 <= k < j ==> !(starts_with_text(#[trigger] ws[k], token@) || starts_with_text(token@, ws[k])),
        decreases target_words@.len() - j,
    {
        let w = target_words[j].as_str();
        assert(ws[j as int] == w@);
        if starts_with_exec(w, token) || starts_with_exec(token, w) {
            return true;
        }
        j += 1;
    }
    false
}

/// The fuzzy similarity of `query` and `target`.
pub fn fuzzy_score(query: &str, target: &str) -> (r: Score)
    ensures
        r == spec_fuzzy(query@, target@),
        well_formed(r),
{
    let tokens = split_words(query);
    let ghost tv = words(query@);
    proof {
        lemma_count_hits_le(tv, lowercase(target@));
        assert(tokens@.len() == tv.len()) by {
            assert(tokens@.map_values(|w: String| w@).len() == tokens@.len());
        }
    }
    if query.unicode_len() == 0 || target.unicode_len() == 0 || tokens.len() == 0 {
        return Score { num: 0, den: 1 };
    }
    let tl = to_lower(target);
    let target_words = split_words(tl.as_str());
    let mut matched: usize = 0;
    let mut i: usize = 0;
    while i < tokens.len()
        invariant
            i <= tokens@.len(),
            tokens@.map_values(|w: String| w@) == tv,
            target_words@.map_values(|w: String| w@) == words(tl@),
            matched == count_hits(tv.take(i as int), tl@),
            matched <= i,
        decreases tokens@.len() - i,
    {
        assert(tv.take(i + 1).drop_last() =~= tv.take(i as int));
        assert(tv.take(i + 1).last() == tokens@[i as int]@);
        let tk = to_lower(tokens[i].as_str());
        if token_hits_exec(tl.as_str(), &target_words, tk.as_str()) {
            matched += 1;
        }
        i += 1;
    }
    assert(tv.take(i as int) =~= tv);
    let ql = to_lower(query);
    let m = matched as u128;
    let t = tokens.len() as u128;
    if text_eq(tl.as_str(), ql.as_str()) {
        Score { num: 1, den: 1 }
    } else if starts_with_exec(tl.as_str(), ql.as_str()) {
        if 10 * m + 3 * t >= 10 * t {
            Score { num: 1, den: 1 }
        } else {
            Score { num: 10 * m + 3 * t, den: 10 * t }
        }
    } else {
        Score { num: m, den: t }
    }
}


// ── Candidates ───────────────────────────────────────────────

/// A command suggested for a query. Its action takes one parameter,
/// `param_key: param_value`.
#[derive(Debug, Clone)]
pub struct CommandSuggestion {
    /// A fresh identifier.
    pub id: String,
    pub label: String,
    pub subtitle: String,
    pub icon: String,
    pub action: String,
    pub param_key: String,
    pub param_value: String,
    pub score: Score,
    pub source: String,
}

/// A suggestion without its identifier.
pub ghost struct CandSpec {
    pub label: Seq<char>,
    pub subtitle: Seq<char>,
    pub icon: Seq<char>,
    pub action: Seq<char>,
    pub param_key: Seq<char>,
    pub param_value: Seq<char>,
    pub score: Score,
    pub source: Seq<char>,
}

pub open spec fn cand_view(c: CommandSuggestion) -> CandSpec {
    CandSpec {
        label: c.label@,
        subtitle: c.subtitle@,
        icon: c.icon@,
        action: c.action@,
        param_key: c.param_key@,
        param_value: c.param_value@,
        score: c.score,
        source: c.source@,
    }
}

pub open spec fn cands_view(v: Seq<CommandSuggestion>) -> Seq<CandSpec> {
    v.map_values(|c: CommandSuggestion| cand_view(c))
}

proof fn lemma_cands_push(v: Seq<CommandSuggestion>, c: CommandSuggestion)
    ensures
        cands_view(v.push(c)) == cands_view(v).push(cand_view(c)),
{
    assert(cands_view(v.push(c)) =~= cands_view(v).push(cand_view(c)));
}

fn suggestion(
    label: String,
    subtitle: String,
    icon: &str,
    action: &str,
    param_key: &str,
    param_value: String,
    score: Score,
    source: &str,
) -> (c: CommandSuggestion)
    ensures
        cand_view(c) == (CandSpec {
            label: label@,
            subtitle: subtitle@,
            icon: icon@,
            action: action@,
            param_key: param_key@,
            param_value: param_value@,
            score,
            source: source@,
        }),
{
    CommandSuggestion {
        id: format_id(new_id()),
        label,
        subtitle,
        icon: String::from_str(icon),
        action: String::from_str(action),
        param_key: String::from_str(param_key),
        param_value,
        score,
        source: String::from_str(source),
    }
}

pub open spec fn workflow_subtitle(status: Seq<char>) -> Seq<char> {
    if status == "PendingApproval"@ {
        "Requires approval"@
    } else if status == "Running"@ {
        "Currently running"@
    } else {
        "Status: "@ + status
    }
}

/// Running or interrupted plans whose title is near the query, or every one
/// when the query asks to continue or restore.
pub open spec fn workflow_cands(plans: Seq<ActivePlan>, query: Seq<char>, intent: IntentType) -> Seq<CandSpec>
    decreases plans.len(),
{
    if plans.len() == 0 {
        Seq::empty()
    } else {
        let p = plans.last();
        let sim = spec_fuzzy(query, lowercase(p.title@));
        workflow_cands(plans.drop_last(), query, intent) + if above(sim, 1, 10) || intent == IntentType::Continue
            || intent == IntentType::Restore {
            seq![
                CandSpec {
                    label: "Continue: "@ + p.title@,
                    subtitle: workflow_subtitle(p.status@),
                    icon: "workflow"@,
                    action: "ResumePlan"@,
                    param_key: "plan_id"@,
                    param_value: p.id@,
                    score: sim,
                    source: "workflow"@,
                },
            ]
        } else {
            Seq::empty()
        }
    }
}

fn match_workflows(query: &str, plans: &Vec<ActivePlan>, intent: IntentType) -> (r: Vec<CommandSuggestion>)
    ensures
        cands_view(r@) == workflow_cands(plans@, query@, intent),
        forall|k: int| 0 <= k < r@.len() ==> well_formed(#[trigger] r@[k].score),
{
    let mut out: Vec<CommandSuggestion> = Vec::new();
    let mut i: usize = 0;
    while i < plans.len()
        invariant
            i <= plans@.len(),
            cands_view(out@) == workflow_cands(plans@.take(i as int), query@, intent),
            forall|k: int| 0 <= k < out@.len() ==> well_formed(#[trigger] out@[k].score),
        decreases plans@.len() - i,
    {
        let p = &plans[i];
        assert(plans@.take(i + 1).drop_last() =~= plans@.take(i as int));
        let title_lower = to_lower(p.title.as_str());
        let sim = fuzzy_score(query, title_lower.as_str());
        if above_exec(sim, 1, 10) || intent == IntentType::Continue || intent == IntentType::Restore {
            let st = p.status.as_str();
            let subtitle = if text_eq(st, "PendingApproval") {
                String::from_str("Requires approval")
            } else if text_eq(st, "Running") {
                String::from_str("Currently running")
            } else {
                String::from_str("Status: ").concat(st)
            };
            let c = suggestion(
                String::from_str("Continue: ").concat(p.title.as_str()),
                subtitle,
                "workflow",
                "ResumePlan",
                "plan_id",
                p.id.clone(),
                sim,
                "workflow",
            );
            proof {
                lemma_cands_push(out@, c);
            }
            out.push(c);
        } else {
            assert(workflow_cands(plans@.take(i as int), query@, intent) + Seq::<CandSpec>::empty()
                =~= workflow_cands(plans@.take(i as int), query@, intent));
        }
        i += 1;
    }
    assert(plans@.take(i as int) =~= plans@);
    out
}

/// Recent snapshots whose label is near the query, or every one when the
/// query asks to restore or continue.
pub open spec fn snapshot_cands(snaps: Seq<RecentSnapshot>, query: Seq<char>, intent: IntentType) -> Seq<CandSpec>
    decreases snaps.len(),
{
    if snaps.len() == 0 {
        Seq::empty()
    } else {
        let p = snaps.last();
        let sim = spec_fuzzy(query, lowercase(p.label@));
        snapshot_cands(snaps.drop_last(), query, intent) + if above(sim, 1, 10) || intent == IntentType::Restore
            || intent == IntentType::Continue {
            seq![
                CandSpec {
                    label: "Restore: "@ + p.label@,
                    subtitle: "Taken "@ + spec_format_timestamp(p.taken_at@),
                    icon: "snapshot"@,
                    action: "PreviewRestore"@,
                    param_key: "snapshot_id"@,
                    param_value: p.id@,
                    score: sim,
                    source: "snapshot"@,
                },
            ]
        } else {
            Seq::empty()
        }
    }
}

/// The snapshot times can be shortened for display.
pub open spec fn times_cuttable(snaps: Seq<RecentSnapshot>) -> bool {
    forall|k: int|
        0 <= k < snaps.len() ==> (encode_utf8((#[trigger] snaps[k]).taken_at@).len() > 19 ==> is_char_boundary(
            encode_utf8(snaps[k].taken_at@),
            19,
        ))
}

fn match_snapshots(query: &str, snaps: &Vec<RecentSnapshot>, intent: IntentType) -> (r: Vec<CommandSuggestion>)
    requires
        times_cuttable(snaps@),
    ensures
        cands_view(r@) == snapshot_cands(snaps@, query@, intent),
        forall|k: int| 0 <= k < r@.len() ==> well_formed(#[trigger] r@[k].score),
{
    let mut out: Vec<CommandSuggestion> = Vec::new();
    let mut i: usize = 0;
    while i < snaps.len()
        invariant
            i <= snaps@.len(),
            times_cuttable(snaps@),
            cands_view(out@) == snapshot_cands(snaps@.take(i as int), query@, intent),
            forall|k: int| 0 <= k < out@.len() ==> well_formed(#[trigger] out@[k].score),
        decreases snaps@.len() - i,
    {
        let p = &snaps[i];
        assert(snaps@.take(i + 1).drop_last() =~= snaps@.take(i as int));
        let label_lower = to_lower(p.label.as_str());
        let sim = fuzzy_score(query, label_lower.as_str());
        if above_exec(sim, 1, 10) || intent == IntentType::Restore || intent == IntentType::Continue {
            let c = suggestion(
                String::from_str("Restore: ").concat(p.label.as_str()),
                String::from_str("Taken ").concat(format_timestamp(p.taken_at.as_str()).as_str()),
                "snapshot",
                "PreviewRestore",
                "snapshot_id",
                p.id.clone(),
                sim,
                "snapshot",
            );
            proof {
                lemma_cands_push(out@, c);
            }
            out.push(c);
        } else {
            assert(snapshot_cands(snaps@.take(i as int), query@, intent) + Seq::<CandSpec>::empty()
                =~= snapshot_cands(snaps@.take(i as int), query@, intent));
        }
        i += 1;
    }
    assert(snaps@.take(i as int) =~= snaps@);
    out
}


pub open spec fn app_cand(query: Seq<char>, keyword: Seq<char>, name: Seq<char>) -> Seq<CandSpec> {
    if contains_text(query, keyword) || query.len() == 0 {
        let sim = if query.len() == 0 { Score { num: 1, den: 10 } } else { spec_fuzzy(query, keyword) };
        if sim.num > 0 {
            seq![
                CandSpec {
                    label: "Open "@ + name,
                    subtitle: "Application"@,
                    icon: "app"@,
                    action: "open_app"@,
                    param_key: "app"@,
                    param_value: name,
                    score: sim,
                    source: "action"@,
                },
            ]
        } else {
            Seq::empty()
        }
    } else {
        Seq::empty()
    }
}

/// Desktop actions for a lower-cased query: well-known applications (all of
/// them for an empty query) when it asks to open something or is generic,
/// the current workspace when it asks to switch or is generic, and pausing
/// the media player when it speaks of media or music, or of playing.
pub open spec fn action_cands(query: Seq<char>, d: DesktopState, intent: IntentType) -> Seq<CandSpec> {
    let apps = if intent == IntentType::Open || intent == IntentType::Generic {
        app_cand(query, "firefox"@, "Firefox"@) + app_cand(query, "code"@, "VS Code"@) + app_cand(
            query,
            "terminal"@,
            "Terminal"@,
        ) + app_cand(query, "files"@, "Files"@) + app_cand(query, "settings"@, "Settings"@) + app_cand(
            query,
            "browser"@,
            "Browser"@,
        )
    } else {
        Seq::empty()
    };
    let ws = d.workspace@;
    let switch = if ws.len() > 0 && (intent == IntentType::Switch || intent == IntentType::Generic) && (above(
        spec_fuzzy(query, lowercase(ws)),
        1,
        10,
    ) || contains_text(query, "workspace"@)) {
        seq![
            CandSpec {
                label: "Switch to "@ + ws,
                subtitle: "Workspace"@,
                icon: "workspace"@,
                action: "switch_workspace"@,
                param_key: "workspace"@,
                param_value: ws,
                score: Score { num: 1, den: 2 },
                source: "action"@,
            },
        ]
    } else {
        Seq::empty()
    };
    let media = if (d.media_player@.len() > 0 && contains_text(query, "media"@)) || contains_text(query, "music"@)
        || contains_text(query, "play"@) {
        seq![
            CandSpec {
                label: "Pause "@ + d.media_player@,
                subtitle: "Media control"@,
                icon: "media"@,
                action: "media_control"@,
                param_key: "action"@,
                param_value: "pause"@,
                score: Score { num: 2, den: 5 },
                source: "action"@,
            },
        ]
    } else {
        Seq::empty()
    };
    apps + switch + media
}

fn push_app(out: &mut Vec<CommandSuggestion>, query: &str, keyword: &str, name: &str)
    ensures
        cands_view(final(out)@) == cands_view(old(out)@) + app_cand(query@, keyword@, name@),
        forall|k: int| 0 <= k < old(out)@.len() ==> final(out)@[k] == old(out)@[k],
        forall|k: int| old(out)@.len() <= k < final(out)@.len() ==> well_formed(#[trigger] final(out)@[k].score),
{
    let empty_query = query.unicode_len() == 0;
    if contains_exec(query, keyword) || empty_query {
        let sim = if empty_query { Score { num: 1, den: 10 } } else { fuzzy_score(query, keyword) };
        if sim.num > 0 {
            let c = suggestion(
                String::from_str("Open ").concat(name),
                String::from_str("Application"),
                "app",
                "open_app",
                "app",
                String::from_str(name),
                sim,
                "action",
            );
            proof {
                lemma_cands_push(out@, c);
            }
            out.push(c);
            return;
        }
    }
    assert(cands_view(out@) + Seq::<CandSpec>::empty() =~= cands_view(out@));
}

fn match_actions(query: &str, d: &DesktopState, intent: IntentType) -> (r: Vec<CommandSuggestion>)
    ensures
        cands_view(r@) == action_cands(query@, *d, intent),
        forall|k: int| 0 <= k < r@.len() ==> well_formed(#[trigger] r@[k].score),
{
    let mut out: Vec<CommandSuggestion> = Vec::new();
    let ghost e = cands_view(out@);
    assert(e =~= Seq::<CandSpec>::empty());
    if intent == IntentType::Open || intent == IntentType::Generic {
        push_app(&mut out, query, "firefox", "Firefox");
        push_app(&mut out, query, "code", "VS Code");
        push_app(&mut out, query, "terminal", "Terminal");
        push_app(&mut out, query, "files", "Files");
        push_app(&mut out, query, "settings", "Settings");
        push_app(&mut out, query, "browser", "Browser");
    }
    let ghost after_apps = cands_view(out@);
    let ws = d.workspace.as_str();
    if ws.unicode_len() > 0 && (intent == IntentType::Switch || intent == IntentType::Generic) {
        let ws_lower = to_lower(ws);
        let sim = fuzzy_score(query, ws_lower.as_str());
        if above_exec(sim, 1, 10) || contains_exec(query, "workspace") {
            let c = suggestion(
                String::from_str("Switch to ").concat(ws),
                String::from_str("Workspace"),
                "workspace",
                "switch_workspace",
                "workspace",
                String::from_str(ws),
                Score { num: 1, den: 2 },
                "action",
            );
            proof {
                lemma_cands_push(out@, c);
            }
            out.push(c);
        }
    }
    let ghost after_switch = cands_view(out@);
    let player = d.media_player.as_str();
    if (player.unicode_len() > 0 && contains_exec(query, "media")) || contains_exec(query, "music") || contains_exec(
        query,
        "play",
    ) {
        let c = suggestion(
            String::from_str("Pause ").concat(player),
            String::from_str("Media control"),
            "media",
            "media_control",
            "action",
            String::from_str("pause"),
            Score { num: 2, den: 5 },
            "action",
        );
        proof {
            lemma_cands_push(out@, c);
        }
        out.push(c);
    }
    assert(cands_view(out@) =~= action_cands(query@, *d, intent));
    out
}

/// The focused application, when its name is near the query.
pub open spec fn context_cands(query: Seq<char>, d: DesktopState) -> Seq<CandSpec> {
    let app = d.focused_app@;
    if app.len() > 0 && above(spec_fuzzy(query, lowercase(app)), 2, 10) {
        seq![
            CandSpec {
                label: "Focus "@ + app,
                subtitle: if d.focused_title@.len() > 0 { d.focused_title@ } else { "Currently focused"@ },
                icon: "window"@,
                action: "focus_window"@,
                param_key: "app"@,
                param_value: app,
                score: Score { num: 1, den: 2 },
                source: "context"@,
            },
        ]
    } else {
        Seq::empty()
    }
}

fn match_context(query: &str, d: &DesktopState) -> (r: Vec<CommandSuggestion>)
    ensures
        cands_view(r@) == context_cands(query@, *d),
        forall|k: int| 0 <= k < r@.len() ==> well_formed(#[trigger] r@[k].score),
{
    let mut out: Vec<CommandSuggestion> = Vec::new();
    let app = d.focused_app.as_str();
    if app.unicode_len() > 0 {
        let app_lower = to_lower(app);
        if above_exec(fuzzy_score(query, app_lower.as_str()), 2, 10) {
            let subtitle = if d.focused_title.unicode_len() > 0 {
                d.focused_title.clone()
            } else {
                String::from_str("Currently focused")
            };
            let c = suggestion(
                String::from_str("Focus ").concat(app),
                subtitle,
                "window",
                "focus_window",
                "app",
                String::from_str(app),
                Score { num: 1, den: 2 },
                "context",
            );
            proof {
                lemma_cands_push(out@, c);
            }
            out.push(c);
        }
    }
    assert(cands_view(out@) =~= context_cands(query@, *d));
    out
}

/// Recent queries near this one, repeated; of several in a row with the
/// same label only the first stays.
pub open spec fn semantic_cands(intents: Seq<String>, query: Seq<char>) -> Seq<CandSpec>
    decreases intents.len(),
{
    if intents.len() == 0 {
        Seq::empty()
    } else {
        let prev = semantic_cands(intents.drop_last(), query);
        let text = intents.last()@;
        let sim = spec_fuzzy(query, lowercase(text));
        let label = "Repeat: "@ + spec_truncate(text, 40);
        if above(sim, 1, 4) && !(prev.len() > 0 && prev.last().label == label) {
            prev.push(
                CandSpec {
                    label,
                    subtitle: "Recent query"@,
                    icon: "memory"@,
                    action: "RepeatQuery"@,
                    param_key: "query"@,
                    param_value: text,
                    score: sim,
                    source: "semantic"@,
                },
            )
        } else {
            prev
        }
    }
}

/// The recent queries can be shortened to 40 bytes.
pub open spec fn texts_cuttable(texts: Seq<String>) -> bool {
    forall|k: int|
        0 <= k < texts.len() ==> (encode_utf8((#[trigger] texts[k])@).len() > 40 ==> is_char_boundary(
            encode_utf8(texts[k]@),
            37,
        ))
}

fn match_semantic(query: &str, intents: &Vec<String>) -> (r: Vec<CommandSuggestion>)
    requires
        texts_cuttable(intents@),
    ensures
        cands_view(r@) == semantic_cands(intents@, query@),
        forall|k: int| 0 <= k < r@.len() ==> well_formed(#[trigger] r@[k].score),
{
    let mut out: Vec<CommandSuggestion> = Vec::new();
    let mut i: usize = 0;
    while i < intents.len()
        invariant
            i <= intents@.len(),
            texts_cuttable(intents@),
            cands_view(out@) == semantic_cands(intents@.take(i as int), query@),
            forall|k: int| 0 <= k < out@.len() ==> well_formed(#[trigger] out@[k].score),
        decreases intents@.len() - i,
    {
        assert(intents@.take(i + 1).drop_last() =~= intents@.take(i as int));
        let text = intents[i].as_str();
        let text_lower = to_lower(text);
        let sim = fuzzy_score(query, text_lower.as_str());
        if above_exec(sim, 1, 4) {
            let label = String::from_str("Repeat: ").concat(truncate(text, 40).as_str());
            let n = out.len();
            let repeated = n > 0 && text_eq(out[n - 1].label.as_str(), label.as_str());
            if !repeated {
                let c = suggestion(
                    label,
                    String::from_str("Recent query"),
                    "memory",
                    "RepeatQuery",
                    "query",
                    String::from_str(text),
                    sim,
                    "semantic",
                );
                proof {
                    lemma_cands_push(out@, c);
                }
                out.push(c);
            } else {
                assert(cands_view(out@).last() == cand_view(out@[n - 1]));
            }
        }
        i += 1;
    }
    assert(intents@.take(i as int) =~= intents@);
    out
}

/// Every candidate for a query, from all sources in turn: plans, snapshots,
/// desktop actions, the focused window, recent queries. The query is
/// lower-cased first.
pub open spec fn spec_resolve(query: Seq<char>, intent: IntentType, ctx: AggregatedContext) -> Seq<CandSpec> {
    let q = lowercase(query);
    workflow_cands(ctx.active_plans@, q, intent) + snapshot_cands(ctx.recent_snapshots@, q, intent) + action_cands(
        q,
        ctx.desktop,
        intent,
    ) + context_cands(q, ctx.desktop) + semantic_cands(ctx.recent_intents@, q)
}

proof fn lemma_actions_offer_switch(q: Seq<char>, d: DesktopState, intent: IntentType)
    requires
        intent == IntentType::Switch || intent == IntentType::Generic,
        d.workspace@.len() > 0,
        above(spec_fuzzy(q, lowercase(d.workspace@)), 1, 10) || contains_text(q, "workspace"@),
    ensures
        exists|i: int|
            0 <= i < action_cands(q, d, intent).len() && (#[trigger] action_cands(q, d, intent)[i]).action
                == "switch_workspace"@ && action_cands(q, d, intent)[i].param_value == d.workspace@
                && action_cands(q, d, intent)[i].label == "Switch to "@ + d.workspace@ && action_cands(q, d, intent)[
                i
            ].score == (Score { num: 1, den: 2 }),
{
    let a = action_cands(q, d, intent);
    let media = (d.media_player@.len() > 0 && contains_text(q, "media"@)) || contains_text(q, "music"@)
        || contains_text(q, "play"@);
    if media {
        assert(a[a.len() - 2].action == "switch_workspace"@);
        assert(a[a.len() - 2].param_value == d.workspace@);
    } else {
        assert(a[a.len() - 1].action == "switch_workspace"@);
        assert(a[a.len() - 1].param_value == d.workspace@);
    }
}

/// A query that asks to switch (or says nothing in particular) and comes
/// near the current workspace's name, more than a tenth by fuzzy score after
/// both are lower-cased, or that speaks of a workspace, is offered a switch
/// to the current workspace, when the desktop has one, scored one half.
pub proof fn law_switch_query_offers_current_workspace(query: Seq<char>, intent: IntentType, ctx: AggregatedContext)
    requires
        intent == IntentType::Switch || intent == IntentType::Generic,
        ctx.desktop.workspace@.len() > 0,
        above(spec_fuzzy(lowercase(query), lowercase(ctx.desktop.workspace@)), 1, 10) || contains_text(
            lowercase(query),
            "workspace"@,
        ),
    ensures
        exists|i: int|
            0 <= i < spec_resolve(query, intent, ctx).len() && (#[trigger] spec_resolve(query, intent, ctx)[i]).action
                == "switch_workspace"@ && spec_resolve(query, intent, ctx)[i].param_value == ctx.desktop.workspace@
                && spec_resolve(query, intent, ctx)[i].label == "Switch to "@ + ctx.desktop.workspace@
                && spec_resolve(query, intent, ctx)[i].score == (Score { num: 1, den: 2 }),
{
    let q = lowercase(query);
    let d = ctx.desktop;
    let pre = workflow_cands(ctx.active_plans@, q, intent) + snapshot_cands(ctx.recent_snapshots@, q, intent);
    let a = action_cands(q, d, intent);
    let post = context_cands(q, d) + semantic_cands(ctx.recent_intents@, q);
    let r = spec_resolve(query, intent, ctx);
    assert(r =~= pre + a + post);
    lemma_actions_offer_switch(q, d, intent);
    let i = choose|i: int|
        0 <= i < a.len() && (#[trigger] a[i]).action == "switch_workspace"@ && a[i].param_value == d.workspace@
            && a[i].label == "Switch to "@ + d.workspace@ && a[i].score == (Score { num: 1, den: 2 });
    assert(r[pre.len() + i] == a[i]);
}

/// A query that speaks of music or of playing, or of media while a media
/// player is known, is offered to pause the player, scored two fifths,
/// whatever its intent.
pub proof fn law_media_query_offers_pause(query: Seq<char>, intent: IntentType, ctx: AggregatedContext)
    requires
        contains_text(lowercase(query), "music"@) || contains_text(lowercase(query), "play"@) || (
        ctx.desktop.media_player@.len() > 0 && contains_text(lowercase(query), "media"@)),
    ensures
        exists|i: int|
            0 <= i < spec_resolve(query, intent, ctx).len() && (#[trigger] spec_resolve(query, intent, ctx)[i]).action
                == "media_control"@ && spec_resolve(query, intent, ctx)[i].label == "Pause "@
                + ctx.desktop.media_player@ && spec_resolve(query, intent, ctx)[i].param_value == "pause"@
                && spec_resolve(query, intent, ctx)[i].score == (Score { num: 2, den: 5 }),
{
    let q = lowercase(query);
    let d = ctx.desktop;
    let pre = workflow_cands(ctx.active_plans@, q, intent) + snapshot_cands(ctx.recent_snapshots@, q, intent);
    let a = action_cands(q, d, intent);
    let post = context_cands(q, d) + semantic_cands(ctx.recent_intents@, q);
    let r = spec_resolve(query, intent, ctx);
    assert(r =~= pre + a + post);
    assert(a[a.len() - 1].action == "media_control"@);
    assert(r[pre.len() + a.len() - 1] == a[a.len() - 1]);
}

/// Resolve a query into candidate suggestions.
pub fn resolve(ctx: &AggregatedContext, query: &str, intent: IntentType) -> (r: Vec<CommandSuggestion>)
    requires
        times_cuttable(ctx.recent_snapshots@),
        texts_cuttable(ctx.recent_intents@),
    ensures
        cands_view(r@) == spec_resolve(query@, intent, *ctx),
        forall|k: int| 0 <= k < r@.len() ==> well_formed(#[trigger] r@[k].score),
{
    let lower = to_lower(query);
    let q = lower.as_str();
    let mut all = match_workflows(q, &ctx.active_plans, intent);
    let mut more = match_snapshots(q, &ctx.recent_snapshots, intent);
    all.append(&mut more);
    let mut more = match_actions(q, &ctx.desktop, intent);
    all.append(&mut more);
    let mut more = match_context(q, &ctx.desktop);
    all.append(&mut more);
    let mut more = match_semantic(q, &ctx.recent_intents);
    all.append(&mut more);
    assert(cands_view(all@) =~= spec_resolve(query@, intent, *ctx));
    all
}

} // verus!
