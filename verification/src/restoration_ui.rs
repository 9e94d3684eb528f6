//! The bar's restoration suggestion: how old a snapshot is, said in words.
use vstd::prelude::*;
use vstd::string::*;
use vstd::utf8::*;

use crate::ids::system_now_secs;
use crate::text::{
    decimal, decimal_text, signed_decimal, signed_decimal_text, parse_signed_in, parse_unsigned_in, spec_parse_signed, spec_parse_unsigned,
    trim_text, trimmed,
};

verus! {

/// Where byte `c` first occurs in `b`; the length of `b` when it does not.
#[verifier::opaque]
pub open spec fn byte_pos(b: Seq<u8>, c: u8) -> int {
    if exists|i: int| 0 <= i < b.len() && b[i] == c {
        choose|i: int| 0 <= i < b.len() && b[i] == c && forall|j: int| 0 <= j < i ==> b[j] != c
    } else {
        b.len() as int
    }
}

proof fn lemma_byte_pos(b: Seq<u8>, c: u8, i: int)
    requires
        0 <= i <= b.len(),
        i < b.len() ==> b[i] == c,
        forall|j: int| 0 <= j < i ==> b[j] != c,
    ensures
        byte_pos(b, c) == i,
{
    reveal(byte_pos);
    if i < b.len() {
        let k = choose|k: int| 0 <= k < b.len() && b[k] == c && forall|j: int| 0 <= j < k ==> b[j] != c;
        assert(0 <= k < b.len() && b[k] == c && forall|j: int| 0 <= j < k ==> b[j] != c);
        if k < i {
            assert(b[k] != c);
        } else if k > i {
            assert(b[i] != c);
        }
    } else {
        assert(!exists|k: int| 0 <= k < b.len() && b[k] == c);
    }
}

/// Where byte `c` first occurs in `b[start..end]`, counted from `start`.
fn find_byte(b: &[u8], start: usize, end: usize, c: u8) -> (r: usize)
    requires
        start <= end <= b@.len(),
    ensures
        r as int == byte_pos(b@.subrange(start as int, end as int), c),
        r <= end - start,
{
    let ghost s = b@.subrange(start as int, end as int);
    let mut i: usize = start;
    while i < end
        invariant
            start <= i <= end <= b@.len(),
            s == b@.subrange(start as int, end as int),
            forall|j: int| 0 <= j < i - start ==> s[j] != c,
        decreases end - i,
    {
        if b[i] == c {
            proof {
                lemma_byte_pos(s, c, i - start);
            }
            return i - start;
        }
        i += 1;
    }
    proof {
        lemma_byte_pos(s, c, i - start);
    }
    i - start
}

pub open spec fn is_sign(c: u8) -> bool {
    c == 43 || c == 45
}

/// The last position of a `+` or `-` in `b`, if there is one.
#[verifier::opaque]
pub open spec fn last_sign(b: Seq<u8>) -> Option<int> {
    if exists|i: int| 0 <= i < b.len() && is_sign(b[i]) {
        Some(choose|i: int| 0 <= i < b.len() && is_sign(b[i]) && forall|j: int| i < j < b.len() ==> !is_sign(b[j]))
    } else {
        None
    }
}

proof fn lemma_last_sign(s: Seq<u8>, k: int)
    requires
        0 <= k < s.len(),
        is_sign(s[k]),
        forall|j: int| k < j < s.len() ==> !is_sign(s[j]),
    ensures
        last_sign(s) == Some(k),
{
    reveal(last_sign);
    assert(exists|x: int| 0 <= x < s.len() && is_sign(s[x]));
    let w = choose|w: int| 0 <= w < s.len() && is_sign(s[w]) && forall|j: int| w < j < s.len() ==> !is_sign(s[j]);
    assert(0 <= w < s.len() && is_sign(s[w]) && forall|j: int| w < j < s.len() ==> !is_sign(s[j]));
    if w < k {
        assert(!is_sign(s[k]));
    } else if w > k {
        assert(!is_sign(s[w]));
    }
}

fn find_last_sign(b: &[u8], start: usize, end: usize) -> (r: Option<usize>)
    requires
        start <= end <= b@.len(),
    ensures
        match r {
            Some(i) => last_sign(b@.subrange(start as int, end as int)) == Some(i as int) && i < end - start,
            None => last_sign(b@.subrange(start as int, end as int)) is None,
        },
{
    let ghost s = b@.subrange(start as int, end as int);
    let mut i: usize = end;
    while i > start
        invariant
            start <= i <= end <= b@.len(),
            s == b@.subrange(start as int, end as int),
            forall|j: int| i - start <= j < s.len() ==> !is_sign(s[j]),
        decreases i - start,
    {
        if b[i - 1] == 43 || b[i - 1] == 45 {
            proof {
                lemma_last_sign(s, (i - 1 - start) as int);
            }
            return Some(i - 1 - start);
        }
        i -= 1;
    }
    proof {
        reveal(last_sign);
    }
    None
}

/// Days from 1970-01-01 to a civil date, by Howard Hinnant's method with
/// Rust's truncating division.
#[verifier::opaque]
pub open spec fn days_from_civil(year: int, month: int, day: int) -> int {
    let y = year - if month <= 2 { 1int } else { 0int };
    let era = if y >= 0 { y / 400 } else { -((399 - y) / 400) };
    let yoe = y - era * 400;
    let mp = if month > 2 { month - 3 } else { month + 9 };
    let doy = (153 * mp + 2) / 5 + day - 1;
    let doe = yoe * 365 + yoe / 4 - yoe / 100 + doy;
    era * 146097 + doe - 719468
}

pub open spec fn parsed_u32(b: Seq<u8>) -> Option<nat> {
    spec_parse_unsigned(b, u32::MAX as nat)
}

/// The time part of the trimmed bytes: after byte 11, up to a `Z` or a
/// `+`, and up to a final `-` offset that comes after the seconds.
pub open spec fn time_text(t: Seq<u8>) -> Seq<u8> {
    let rest = t.skip(11);
    let tp1 = rest.take(byte_pos(rest, 90));
    let tp = tp1.take(byte_pos(tp1, 43));
    match last_sign(tp) {
        Some(idx) => if idx > 8 { tp.take(idx) } else { tp },
        None => tp,
    }
}

/// Hours, minutes and seconds of `HH:MM[:SS[.frac]]`: the first two fields
/// must read; a third that does not read counts as zero seconds.
pub open spec fn clock_fields(tc: Seq<u8>) -> Option<(nat, nat, nat)> {
    let c0 = byte_pos(tc, 58);
    let r1 = tc.skip(c0 + 1);
    let c1 = byte_pos(r1, 58);
    let r2 = r1.skip(c1 + 1);
    let p2 = r2.take(byte_pos(r2, 58));
    let hour = parsed_u32(tc.take(c0));
    let minute = parsed_u32(r1.take(c1));
    let second: nat = if c1 < r1.len() {
        match parsed_u32(p2.take(byte_pos(p2, 46))) {
            Some(v) => v,
            None => 0,
        }
    } else {
        0
    };
    if c0 < tc.len() && hour is Some && minute is Some {
        Some((hour->0, minute->0, second))
    } else {
        None
    }
}

/// The instant an ISO 8601 text names, read from its bytes (after trimming):
/// the date from bytes 0..10 and the clock from the time part. `None` where a
/// number does not read.
pub open spec fn spec_iso_instant(t: Seq<u8>) -> Option<int> {
    let year = spec_parse_signed(t.subrange(0, 4), i64::MIN as int, i64::MAX as int);
    let month = parsed_u32(t.subrange(5, 7));
    let day = parsed_u32(t.subrange(8, 10));
    match (year, month, day, clock_fields(time_text(t))) {
        (Some(y), Some(mo), Some(d), Some((h, mi, sec))) => Some(
            days_from_civil(y, mo as int, d as int) * 86400 + h * 3600 + mi * 60 + sec,
        ),
        _ => None,
    }
}

/// `a - b`, held within the range of `i64`.
pub open spec fn sat_sub(a: int, b: int) -> int {
    let d = a - b;
    if d > i64::MAX {
        i64::MAX as int
    } else if d < i64::MIN {
        i64::MIN as int
    } else {
        d
    }
}

/// How long ago, in words: "just now" under a minute, then whole minutes,
/// hours, or days.
pub open spec fn age_label(diff: int) -> Seq<char> {
    if diff < 60 {
        "just now"@
    } else if diff < 3600 {
        decimal((diff / 60) as nat) + "m ago"@
    } else if diff < 86400 {
        decimal((diff / 3600) as nat) + "h ago"@
    } else {
        decimal((diff / 86400) as nat) + "d ago"@
    }
}

pub fn age_text(diff: i64) -> (r: String)
    ensures
        r@ == age_label(diff as int),
{
    if diff < 60 {
        String::from_str("just now")
    } else if diff < 3600 {
        decimal_text((diff / 60) as u64).concat("m ago")
    } else if diff < 86400 {
        decimal_text((diff / 3600) as u64).concat("h ago")
    } else {
        decimal_text((diff / 86400) as u64).concat("d ago")
    }
}

/// The bytes of the trimmed text fall on character boundaries where the
/// date and time are cut out of it.
pub open spec fn cuttable(iso: Seq<char>) -> bool {
    let tb = encode_utf8(trimmed(iso));
    &&& tb.len() >= 11
    &&& is_char_boundary(tb, 4)
    &&& is_char_boundary(tb, 5)
    &&& is_char_boundary(tb, 7)
    &&& is_char_boundary(tb, 8)
    &&& is_char_boundary(tb, 10)
    &&& is_char_boundary(tb, 11)
}

pub open spec fn spec_relative_time(iso: Seq<char>, now: i64) -> Seq<char> {
    if encode_utf8(iso).len() < 20 {
        Seq::empty()
    } else {
        match spec_iso_instant(encode_utf8(trimmed(iso))) {
            Some(then) => age_label(sat_sub(now as int, then)),
            None => Seq::empty(),
        }
    }
}


fn sat_sub_exec(a: i64, b: i64) -> (r: i64)
    ensures
        r == sat_sub(a as int, b as int),
{
    let d = a as i128 - b as i128;
    if d > i64::MAX as i128 {
        i64::MAX
    } else if d < i64::MIN as i128 {
        i64::MIN
    } else {
        d as i64
    }
}

fn civil_days(year: i64, month: u64, day: u64) -> (r: i64)
    requires
        -1_000_000_000 <= year <= 1_000_000_000,
        month <= 100,
        day <= 100,
    ensures
        r == days_from_civil(year as int, month as int, day as int),
        -1_000_000_000_000 <= r <= 1_000_000_000_000,
{
    reveal(days_from_civil);
    let y: i64 = year - if month <= 2 { 1 } else { 0 };
    let era: i64 = if y >= 0 { (y as u64 / 400) as i64 } else { -(((399 - y) as u64 / 400) as i64) };
    let yoe: i64 = y - era * 400;
    assert(0 <= yoe < 400);
    let mp: u64 = if month > 2 { month - 3 } else { month + 9 };
    let doy: i64 = ((153 * mp + 2) / 5) as i64 + day as i64 - 1;
    let yoe_u = yoe as u64;
    let doe: i64 = yoe * 365 + (yoe_u / 4) as i64 - (yoe_u / 100) as i64 + doy;
    era * 146097 + doe - 719468
}

/// Cut the time part out of `b`, which holds at least 11 bytes: its end.
fn time_end(b: &[u8]) -> (r: usize)
    requires
        b@.len() >= 11,
    ensures
        11 <= r <= b@.len(),
        b@.subrange(11, r as int) == time_text(b@),
{
    let ghost t = b@;
    let n = b.len();
    let ghost rest = t.skip(11);
    let cz = find_byte(b, 11, n, 90);
    assert(b@.subrange(11, n as int) =~= rest);
    let e1 = 11 + cz;
    let ghost tp1 = rest.take(byte_pos(rest, 90));
    assert(b@.subrange(11, e1 as int) =~= tp1);
    let cp = find_byte(b, 11, e1, 43);
    let e2 = 11 + cp;
    let ghost tp = tp1.take(byte_pos(tp1, 43));
    assert(b@.subrange(11, e2 as int) =~= tp);
    let e3 = match find_last_sign(b, 11, e2) {
        Some(idx) => if idx > 8 {
            assert(tp.take(idx as int) =~= b@.subrange(11, 11 + idx));
            11 + idx
        } else {
            e2
        },
        None => e2,
    };
    assert(b@.subrange(11, e3 as int) =~= time_text(t));
    e3
}

/// Read `HH:MM[:SS[.frac]]` from `b[start..end]`.
fn clock_in(b: &[u8], start: usize, end: usize) -> (r: Option<(u64, u64, u64)>)
    requires
        start <= end <= b@.len(),
    ensures
        match clock_fields(b@.subrange(start as int, end as int)) {
            Some((h, mi, sec)) => r == Some((h as u64, mi as u64, sec as u64)) && h <= u32::MAX && mi <= u32::MAX
                && sec <= u32::MAX,
            None => r is None,
        },
{
    let ghost tc = b@.subrange(start as int, end as int);
    let c0 = find_byte(b, start, end, 58);
    if c0 == end - start {
        return None;
    }
    let ghost r1 = tc.skip(c0 + 1);
    let hour = parse_unsigned_in(b, start, start + c0, 4294967295);
    assert(b@.subrange(start as int, start + c0) =~= tc.take(c0 as int));
    let s1 = start + c0 + 1;
    assert(b@.subrange(s1 as int, end as int) =~= r1);
    let c1 = find_byte(b, s1, end, 58);
    let minute = parse_unsigned_in(b, s1, s1 + c1, 4294967295);
    assert(b@.subrange(s1 as int, s1 + c1) =~= r1.take(c1 as int));
    let second: u64 = if s1 + c1 < end {
        let s2 = s1 + c1 + 1;
        let ghost r2 = r1.skip(c1 + 1);
        assert(b@.subrange(s2 as int, end as int) =~= r2);
        let c2 = find_byte(b, s2, end, 58);
        let ghost p2 = r2.take(c2 as int);
        assert(b@.subrange(s2 as int, s2 + c2) =~= p2);
        let c3 = find_byte(b, s2, s2 + c2, 46);
        assert(b@.subrange(s2 as int, s2 + c3) =~= p2.take(c3 as int));
        match parse_unsigned_in(b, s2, s2 + c3, 4294967295) {
            Some(v) => v,
            None => 0,
        }
    } else {
        0
    };
    match (hour, minute) {
        (Some(h), Some(mi)) => Some((h, mi, second)),
        _ => None,
    }
}

/// The instant the trimmed bytes `b` (at least 11 of them) name, in Unix seconds.
fn iso_instant(b: &[u8]) -> (r: Option<i64>)
    requires
        b@.len() >= 11,
    ensures
        match spec_iso_instant(b@) {
            Some(v) => r == Some(v as i64) && i64::MIN <= v <= i64::MAX,
            None => r is None,
        },
{
    let ghost t = b@;
    let year = parse_signed_in(b, 0, 4);
    let month = parse_unsigned_in(b, 5, 7, 4294967295);
    let day = parse_unsigned_in(b, 8, 10, 4294967295);
    let e3 = time_end(b);
    let clock = clock_in(b, 11, e3);
    match (year, month, day, clock) {
        (Some(y), Some(mo), Some(d), Some((h, mi, sec))) => {
            proof {
                crate::text::lemma_small_parse(t.subrange(0, 4));
                crate::text::lemma_two_digits_small(t.subrange(5, 7));
                crate::text::lemma_two_digits_small(t.subrange(8, 10));
            }
            let days = civil_days(y, mo, d);
            Some(days * 86400 + (h as i64) * 3600 + (mi as i64) * 60 + sec as i64)
        },
        _ => None,
    }
}

/// How long before `now` (Unix seconds) the ISO 8601 instant `iso` lies, in
/// words; the empty text where `iso` is too short or does not read.
pub fn relative_time_at(iso: &str, now: i64) -> (r: String)
    requires
        encode_utf8(iso@).len() >= 20 ==> cuttable(iso@),
    ensures
        r@ == spec_relative_time(iso@, now),
{
    if iso.as_bytes().len() < 20 {
        return String::new();
    }
    let s = trim_text(iso);
    let b = s.as_bytes();
    assert(b@ == encode_utf8(trimmed(iso@)));
    match iso_instant(b) {
        Some(then) => age_text(sat_sub_exec(now, then)),
        None => String::new(),
    }
}


/// How long ago the instant `iso` lies, by the system clock.
pub fn relative_time(iso: &str) -> (r: String)
    requires
        encode_utf8(iso@).len() >= 20 ==> cuttable(iso@),
    ensures
        exists|now: i64| r@ == spec_relative_time(iso@, now),
{
    let now = system_now_secs();
    relative_time_at(iso, now)
}

// ── The suggestion widget ────────────────────────────────────

/// A snapshot offered for restoration.
#[derive(Debug, Clone)]
pub struct SnapshotCard {
    pub id: String,
    pub label: String,
    pub created_at: String,
    pub window_count: i64,
    pub terminal_count: i64,
    pub active_project: String,
}

/// One action of a restoration preview, and whether it is ticked.
#[derive(Debug, Clone)]
pub struct PreviewAction {
    pub id: String,
    pub action_type: String,
    pub label: String,
    pub safe: bool,
    pub selected: bool,
}

pub open spec fn or_text(o: Option<String>, dflt: Seq<char>) -> Seq<char> {
    match o {
        Some(s) => s@,
        None => dflt,
    }
}

fn owned_or(o: &Option<String>, dflt: &str) -> (r: String)
    ensures
        r@ == or_text(*o, dflt@),
{
    match o {
        Some(s) => s.clone(),
        None => String::from_str(dflt),
    }
}

/// A snapshot card from the fields of a listed snapshot; missing ones read
/// as an empty id and time, "Workspace", and no windows or terminals.
pub fn snapshot_card(
    snapshot_id: &Option<String>,
    label: &Option<String>,
    created_at: &Option<String>,
    app_count: Option<i64>,
    terminal_count: Option<i64>,
) -> (c: SnapshotCard)
    ensures
        c.id@ == or_text(*snapshot_id, Seq::empty()),
        c.label@ == or_text(*label, "Workspace"@),
        c.created_at@ == or_text(*created_at, Seq::empty()),
        c.window_count == match app_count {
            Some(n) => n,
            None => 0,
        },
        c.terminal_count == match terminal_count {
            Some(n) => n,
            None => 0,
        },
        c.active_project@.len() == 0,
{
    proof {
        reveal_strlit("");
    }
    SnapshotCard {
        id: owned_or(snapshot_id, ""),
        label: owned_or(label, "Workspace"),
        created_at: owned_or(created_at, ""),
        window_count: match app_count {
            Some(n) => n,
            None => 0,
        },
        terminal_count: match terminal_count {
            Some(n) => n,
            None => 0,
        },
        active_project: String::new(),
    }
}

/// A preview action from the fields of a planned step: its id is
/// "<type>-<target>" ("action" and "unknown" standing in for missing ones),
/// its type "Action" when missing; it is safe unless it asks for approval,
/// and starts ticked.
pub fn preview_action(
    action_type: &Option<String>,
    target: &Option<String>,
    label: &Option<String>,
    requires_approval: Option<bool>,
) -> (a: PreviewAction)
    ensures
        a.id@ == or_text(*action_type, "action"@) + "-"@ + or_text(*target, "unknown"@),
        a.action_type@ == or_text(*action_type, "Action"@),
        a.label@ == or_text(*label, Seq::empty()),
        a.safe == !(requires_approval == Some(true)),
        a.selected,
{
    proof {
        reveal_strlit("");
    }
    let id = owned_or(action_type, "action").concat("-").concat(owned_or(target, "unknown").as_str());
    PreviewAction {
        id,
        action_type: owned_or(action_type, "Action"),
        label: owned_or(label, ""),
        safe: !match requires_approval {
            Some(b) => b,
            None => false,
        },
        selected: true,
    }
}

/// The project a card is named by: its active project, else its label.
pub open spec fn card_project(c: SnapshotCard) -> Seq<char> {
    if c.active_project@.len() > 0 {
        c.active_project@
    } else {
        c.label@
    }
}

fn card_project_text(c: &SnapshotCard) -> (r: String)
    ensures
        r@ == card_project(*c),
{
    if c.active_project.unicode_len() > 0 {
        c.active_project.clone()
    } else {
        c.label.clone()
    }
}

/// "Continue: <project>  ·  <w> windows, <t> terminals".
pub fn suggestion_text(c: &SnapshotCard) -> (r: String)
    ensures
        r@ == "Continue: "@ + card_project(*c) + "  ·  "@ + signed_decimal(c.window_count as int) + " windows, "@
            + signed_decimal(c.terminal_count as int) + " terminals"@,
{
    String::from_str("Continue: ").concat(card_project_text(c).as_str()).concat("  ·  ").concat(
        signed_decimal_text(c.window_count).as_str(),
    ).concat(" windows, ").concat(signed_decimal_text(c.terminal_count).as_str()).concat(" terminals")
}

/// "Restore: <project>  ·  <n> actions".
pub fn preview_title(c: &SnapshotCard, action_count: usize) -> (r: String)
    ensures
        r@ == "Restore: "@ + card_project(*c) + "  ·  "@ + decimal(action_count as nat) + " actions"@,
{
    String::from_str("Restore: ").concat(card_project_text(c).as_str()).concat("  ·  ").concat(
        decimal_text(action_count as u64).as_str(),
    ).concat(" actions")
}

/// Where the suggestion widget stands.
#[derive(Debug, Clone)]
pub enum RestorationState {
    Hidden,
    Suggesting { card: SnapshotCard },
    Preview { card: SnapshotCard, actions: Vec<PreviewAction> },
    Restoring,
}

/// Show the preview of the suggested snapshot: only a widget that is
/// suggesting one moves to the preview; any other state is left as it is.
pub fn show_preview(state: RestorationState, actions: Vec<PreviewAction>) -> (r: RestorationState)
    ensures
        match state {
            RestorationState::Suggesting { card } => r matches RestorationState::Preview { card: c, actions: a }
                && c == card && a@ == actions@,
            _ => r == state,
        },
{
    match state {
        RestorationState::Suggesting { card } => RestorationState::Preview { card, actions },
        other => other,
    }
}

/// The ids of the ticked actions of a preview, in order; `ticked[k]` is the
/// check box of action `k`. Nothing outside a preview.
pub open spec fn spec_selected_ids(actions: Seq<PreviewAction>, ticked: Seq<bool>) -> Seq<Seq<char>>
    decreases ticked.len(),
{
    if ticked.len() == 0 {
        Seq::empty()
    } else {
        let k = ticked.len() - 1;
        spec_selected_ids(actions, ticked.drop_last()) + if ticked[k] && k < actions.len() {
            seq![actions[k].id@]
        } else {
            Seq::empty()
        }
    }
}

pub fn selected_ids(state: &RestorationState, ticked: &Vec<bool>) -> (r: Vec<String>)
    ensures
        match state {
            RestorationState::Preview { actions, .. } => r@.map_values(|s: String| s@) == spec_selected_ids(
                actions@,
                ticked@,
            ),
            _ => r@.len() == 0,
        },
{
    let actions = match state {
        RestorationState::Preview { actions, .. } => actions,
        _ => return Vec::new(),
    };
    let mut ids: Vec<String> = Vec::new();
    let mut k: usize = 0;
    while k < ticked.len()
        invariant
            k <= ticked@.len(),
            ids@.map_values(|s: String| s@) == spec_selected_ids(actions@, ticked@.take(k as int)),
        decreases ticked@.len() - k,
    {
        let ghost before = ids@;
        assert(ticked@.take(k + 1).drop_last() =~= ticked@.take(k as int));
        if ticked[k] && k < actions.len() {
            let id = actions[k].id.clone();
            ids.push(id);
            assert(ids@.map_values(|s: String| s@) =~= before.map_values(|s: String| s@) + seq![id@]);
        } else {
            assert(ids@.map_values(|s: String| s@) =~= before.map_values(|s: String| s@) + Seq::<Seq<char>>::empty());
        }
        k += 1;
    }
    assert(ticked@.take(k as int) =~= ticked@);
    ids
}


/// The forms an age takes: "just now", then 1 to 59 minutes, 1 to 23
/// hours, or a number of days from one on.
pub open spec fn is_age_form(t: Seq<char>) -> bool {
    ||| t == "just now"@
    ||| exists|n: nat| 1 <= n < 60 && t == #[trigger] decimal(n) + "m ago"@
    ||| exists|n: nat| 1 <= n < 24 && t == #[trigger] decimal(n) + "h ago"@
    ||| exists|n: nat| 1 <= n && t == #[trigger] decimal(n) + "d ago"@
}

/// How old a snapshot reads: nothing when its timestamp cannot be read,
/// and otherwise one of the age forms.
pub proof fn law_relative_time_forms(iso: Seq<char>, now: i64)
    ensures
        spec_relative_time(iso, now).len() == 0 || is_age_form(spec_relative_time(iso, now)),
{
    if encode_utf8(iso).len() >= 20 {
        match spec_iso_instant(encode_utf8(trimmed(iso))) {
            Some(then) => {
                let d = sat_sub(now as int, then);
                if d < 60 {
                } else if d < 3600 {
                    let n = (d / 60) as nat;
                    assert(1 <= n < 60);
                    assert(age_label(d) == decimal(n) + "m ago"@);
                } else if d < 86400 {
                    let n = (d / 3600) as nat;
                    assert(1 <= n < 24);
                    assert(age_label(d) == decimal(n) + "h ago"@);
                } else {
                    let n = (d / 86400) as nat;
                    assert(1 <= n);
                    assert(age_label(d) == decimal(n) + "d ago"@);
                }
            },
            None => {},
        }
    }
}

} // verus!
