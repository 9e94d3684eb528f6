//! Contextual command intelligence: intent classification of queries and
//! the cached desktop context that command resolution reads.
use vstd::prelude::*;
use vstd::string::*;

use crate::text::{contains_exec, contains_text, lowercase, text_eq, to_lower};

verus! {

/// Operational intent types.
#[derive(Debug, Clone, Copy, PartialEq, Eq, Structural, Hash)]
pub enum IntentType {
    Continue,
    Restore,
    Open,
    Switch,
    Search,
    Generic,
}

pub open spec fn spec_intent_name(t: IntentType) -> Seq<char> {
    match t {
        IntentType::Continue => "continue"@,
        IntentType::Restore => "restore"@,
        IntentType::Open => "open"@,
        IntentType::Switch => "switch"@,
        IntentType::Search => "search"@,
        IntentType::Generic => "generic"@,
    }
}

impl IntentType {
    /// The lower-case name of the intent.
    pub fn name(&self) -> (r: &'static str)
        ensures
            r@ == spec_intent_name(*self),
    {
        match self {
            IntentType::Continue => "continue",
            IntentType::Restore => "restore",
            IntentType::Open => "open",
            IntentType::Switch => "switch",
            IntentType::Search => "search",
            IntentType::Generic => "generic",
        }
    }
}

/// Keyword table: each keyword and the intent it signals.
pub open spec fn keyword_table() -> Seq<(Seq<char>, IntentType)> {
    seq![
        ("continue"@, IntentType::Continue),
        ("resume"@, IntentType::Continue),
        ("restart"@, IntentType::Continue),
        ("reopen"@, IntentType::Continue),
        ("pick up"@, IntentType::Continue),
        ("back to"@, IntentType::Continue),
        ("restore"@, IntentType::Restore),
        ("undo"@, IntentType::Restore),
        ("go back"@, IntentType::Restore),
        ("previous"@, IntentType::Restore),
        ("revert"@, IntentType::Restore),
        ("rollback"@, IntentType::Restore),
        ("open"@, IntentType::Open),
        ("launch"@, IntentType::Open),
        ("start"@, IntentType::Open),
        ("run"@, IntentType::Open),
        ("show me"@, IntentType::Open),
        ("switch"@, IntentType::Switch),
        ("change"@, IntentType::Switch),
        ("move to"@, IntentType::Switch),
        ("go to"@, IntentType::Switch),
        ("toggle"@, IntentType::Switch),
        ("search"@, IntentType::Search),
        ("find"@, IntentType::Search),
        ("look for"@, IntentType::Search),
        ("query"@, IntentType::Search),
    ]
}

/// Classifies user queries into operational intent types by keywords.
pub struct IntentClassifier {
    /// Keywords mapped to intent types.
    pub keywords: Vec<(&'static str, IntentType)>,
}

pub open spec fn table_view(v: Seq<(&'static str, IntentType)>) -> Seq<(Seq<char>, IntentType)> {
    v.map_values(|p: (&'static str, IntentType)| (p.0@, p.1))
}

/// Keyword `i` of the table occurs in the text.
pub open spec fn kw_matches(table: Seq<(Seq<char>, IntentType)>, text: Seq<char>, i: int) -> bool {
    0 <= i < table.len() && contains_text(text, table[i].0)
}

/// Keyword `i` is the one a classification settles on: it occurs, no
/// occurring keyword is longer, and every earlier occurring one is shorter.
pub open spec fn is_best_keyword(table: Seq<(Seq<char>, IntentType)>, text: Seq<char>, i: int) -> bool {
    &&& kw_matches(table, text, i)
    &&& forall|j: int| #[trigger] kw_matches(table, text, j) ==> table[j].0.len() <= table[i].0.len()
    &&& forall|j: int| 0 <= j < i && #[trigger] kw_matches(table, text, j) ==> table[j].0.len() < table[i].0.len()
}

/// The intent of a (lower-cased) text under a keyword table: that of the
/// first longest keyword occurring in it, or generic when none occurs.
pub open spec fn spec_classify(table: Seq<(Seq<char>, IntentType)>, text: Seq<char>) -> IntentType {
    if exists|i: int| is_best_keyword(table, text, i) {
        table[choose|i: int| is_best_keyword(table, text, i)].1
    } else {
        IntentType::Generic
    }
}

/// Classified user intent.
#[derive(Debug, Clone, Copy)]
pub struct ClassifiedIntent {
    /// The primary intent type.
    pub intent_type: IntentType,
}

proof fn lemma_best_unique(table: Seq<(Seq<char>, IntentType)>, text: Seq<char>, a: int, b: int)
    requires
        is_best_keyword(table, text, a),
        is_best_keyword(table, text, b),
    ensures
        a == b,
{
    if a < b {
        assert(kw_matches(table, text, a));
        assert(table[a].0.len() < table[b].0.len());
        assert(table[a].0.len() <= table[b].0.len());
        assert(kw_matches(table, text, b));
        assert(table[b].0.len() <= table[a].0.len());
    } else if b < a {
        assert(kw_matches(table, text, b));
        assert(table[b].0.len() < table[a].0.len());
        assert(kw_matches(table, text, a));
        assert(table[a].0.len() <= table[b].0.len());
    }
}

impl IntentClassifier {
    pub fn new() -> (c: Self)
        ensures
            table_view(c.keywords@) == keyword_table(),
    {
        let mut keywords: Vec<(&'static str, IntentType)> = Vec::new();
        // Continue intent — resume interrupted work
        keywords.push(("continue", IntentType::Continue));
        keywords.push(("resume", IntentType::Continue));
        keywords.push(("restart", IntentType::Continue));
        keywords.push(("reopen", IntentType::Continue));
        keywords.push(("pick up", IntentType::Continue));
        keywords.push(("back to", IntentType::Continue));
        // Restore intent — go back to previous state
        keywords.push(("restore", IntentType::Restore));
        keywords.push(("undo", IntentType::Restore));
        keywords.push(("go back", IntentType::Restore));
        keywords.push(("previous", IntentType::Restore));
        keywords.push(("revert", IntentType::Restore));
        keywords.push(("rollback", IntentType::Restore));
        // Open intent — launch things
        keywords.push(("open", IntentType::Open));
        keywords.push(("launch", IntentType::Open));
        keywords.push(("start", IntentType::Open));
        keywords.push(("run", IntentType::Open));
        keywords.push(("show me", IntentType::Open));
        // Switch intent — change context
        keywords.push(("switch", IntentType::Switch));
        keywords.push(("change", IntentType::Switch));
        keywords.push(("move to", IntentType::Switch));
        keywords.push(("go to", IntentType::Switch));
        keywords.push(("toggle", IntentType::Switch));
        // Search intent — find things
        keywords.push(("search", IntentType::Search));
        keywords.push(("find", IntentType::Search));
        keywords.push(("look for", IntentType::Search));
        keywords.push(("query", IntentType::Search));
        assert(table_view(keywords@) =~= keyword_table());
        IntentClassifier { keywords }
    }

    /// Classify an already lower-cased text.
    pub fn classify_lowered(&self, lower: &str) -> (r: IntentType)
        ensures
            r == spec_classify(table_view(self.keywords@), lower@),
    {
        let ghost table = table_view(self.keywords@);
        let mut best: Option<usize> = None;
        let mut i: usize = 0;
        while i < self.keywords.len()
            invariant
                i <= self.keywords@.len(),
                table == table_view(self.keywords@),
                table.len() == self.keywords@.len(),
                match best {
                    Some(b) => {
                        &&& b < i
                        &&& kw_matches(table, lower@, b as int)
                        &&& forall|j: int| 0 <= j < i && #[trigger] kw_matches(table, lower@, j) ==> table[j].0.len()
                            <= table[b as int].0.len()
                        &&& forall|j: int| 0 <= j < b && #[trigger] kw_matches(table, lower@, j) ==> table[j].0.len()
                            < table[b as int].0.len()
                    },
                    None => forall|j: int| 0 <= j < i ==> !#[trigger] kw_matches(table, lower@, j),
                },
            decreases self.keywords@.len() - i,
        {
            let kw = self.keywords[i].0;
            assert(table[i as int].0 == kw@);
            if contains_exec(lower, kw) {
                match best {
                    None => {
                        best = Some(i);
                    },
                    Some(b) => {
                        let existing = self.keywords[b].0;
                        assert(table[b as int].0 == existing@);
                        if kw.unicode_len() > existing.unicode_len() {
                            best = Some(i);
                        }
                    },
                }
            }
            i += 1;
        }
        match best {
            Some(b) => {
                proof {
                    assert(is_best_keyword(table, lower@, b as int));
                    let c = choose|c: int| is_best_keyword(table, lower@, c);
                    lemma_best_unique(table, lower@, b as int, c);
                }
                self.keywords[b].1
            },
            None => {
                proof {
                    assert forall|c: int| !is_best_keyword(table, lower@, c) by {
                        if 0 <= c < table.len() {
                            assert(!kw_matches(table, lower@, c));
                        }
                    }
                }
                IntentType::Generic
            },
        }
    }

    /// Classify a query: lower-case it, then pick the intent of the first
    /// longest keyword it contains, or generic.
    pub fn classify(&self, query: &str) -> (r: ClassifiedIntent)
        ensures
            r.intent_type == spec_classify(table_view(self.keywords@), lowercase(query@)),
    {
        let lower = to_lower(query);
        ClassifiedIntent { intent_type: self.classify_lowered(lower.as_str()) }
    }
}

/// Whether one of the keywords that signal intent `t` occurs in the text:
/// continue, resume, restart, reopen, pick up, back to (continue); restore,
/// undo, go back, previous, revert, rollback (restore); open, launch, start,
/// run, show me (open); switch, change, move to, go to, toggle (switch);
/// search, find, look for, query (search). No keyword signals a generic
/// intent.
pub open spec fn intent_keyword_occurs(t: IntentType, text: Seq<char>) -> bool {
    match t {
        IntentType::Continue => contains_text(text, "continue"@) || contains_text(text, "resume"@) || contains_text(text, "restart"@) || contains_text(text, "reopen"@) || contains_text(text, "pick up"@) || contains_text(text, "back to"@),
        IntentType::Restore => contains_text(text, "restore"@) || contains_text(text, "undo"@) || contains_text(text, "go back"@) || contains_text(text, "previous"@) || contains_text(text, "revert"@) || contains_text(text, "rollback"@),
        IntentType::Open => contains_text(text, "open"@) || contains_text(text, "launch"@) || contains_text(text, "start"@) || contains_text(text, "run"@) || contains_text(text, "show me"@),
        IntentType::Switch => contains_text(text, "switch"@) || contains_text(text, "change"@) || contains_text(text, "move to"@) || contains_text(text, "go to"@) || contains_text(text, "toggle"@),
        IntentType::Search => contains_text(text, "search"@) || contains_text(text, "find"@) || contains_text(text, "look for"@) || contains_text(text, "query"@),
        IntentType::Generic => false,
    }
}

/// The index of the first longest keyword among the first `n` of the table
/// that occurs in the text, or -1 when none of them occurs.
spec fn best_upto(table: Seq<(Seq<char>, IntentType)>, text: Seq<char>, n: nat) -> int
    decreases n,
{
    if n == 0 {
        -1
    } else {
        let b = best_upto(table, text, (n - 1) as nat);
        if kw_matches(table, text, n - 1) && (b == -1 || table[n - 1].0.len() > table[b].0.len()) {
            n - 1
        } else {
            b
        }
    }
}

proof fn lemma_best_upto(table: Seq<(Seq<char>, IntentType)>, text: Seq<char>, n: nat)
    requires
        n <= table.len(),
    ensures
        best_upto(table, text, n) == -1 ==> forall|j: int| 0 <= j < n ==> !#[trigger] kw_matches(table, text, j),
        best_upto(table, text, n) != -1 ==> {
            let b = best_upto(table, text, n);
            &&& 0 <= b < n
            &&& kw_matches(table, text, b)
            &&& forall|j: int| 0 <= j < n && #[trigger] kw_matches(table, text, j) ==> table[j].0.len() <= table[b].0.len()
            &&& forall|j: int| 0 <= j < b && #[trigger] kw_matches(table, text, j) ==> table[j].0.len() < table[b].0.len()
        },
    decreases n,
{
    if n > 0 {
        lemma_best_upto(table, text, (n - 1) as nat);
    }
}

/// When some keyword of the table occurs, one of them is the keyword a
/// classification settles on.
proof fn lemma_best_exists(table: Seq<(Seq<char>, IntentType)>, text: Seq<char>, i: int)
    requires
        kw_matches(table, text, i),
    ensures
        exists|b: int| is_best_keyword(table, text, b),
{
    lemma_best_upto(table, text, table.len());
    let b = best_upto(table, text, table.len());
    assert(kw_matches(table, text, i) && 0 <= i < table.len());
    assert(is_best_keyword(table, text, b));
}

/// A (lower-cased) text in which some keyword of one intent occurs, and no
/// keyword of another intent, is classified as that intent by the
/// classifier's keyword table; "find my notes", for one, is a search.
pub proof fn law_keywords_decide_intent(text: Seq<char>, t: IntentType)
    requires
        intent_keyword_occurs(t, text),
        t != IntentType::Continue ==> !intent_keyword_occurs(IntentType::Continue, text),
        t != IntentType::Restore ==> !intent_keyword_occurs(IntentType::Restore, text),
        t != IntentType::Open ==> !intent_keyword_occurs(IntentType::Open, text),
        t != IntentType::Switch ==> !intent_keyword_occurs(IntentType::Switch, text),
        t != IntentType::Search ==> !intent_keyword_occurs(IntentType::Search, text),
    ensures
        spec_classify(keyword_table(), text) == t,
{
    let table = keyword_table();
    assert forall|j: int| #[trigger] kw_matches(table, text, j) implies table[j].1 == t by {
        assert(j == 0 || j == 1 || j == 2 || j == 3 || j == 4 || j == 5 || j == 6 || j == 7 || j == 8 || j == 9 || j == 10 || j == 11 || j == 12 || j == 13 || j == 14 || j == 15 || j == 16 || j == 17 || j == 18 || j == 19 || j == 20 || j == 21 || j == 22 || j == 23 || j == 24 || j == 25);
    }
    if contains_text(text, "continue"@) {
        lemma_best_exists(table, text, 0);
    } else if contains_text(text, "resume"@) {
        lemma_best_exists(table, text, 1);
    } else if contains_text(text, "restart"@) {
        lemma_best_exists(table, text, 2);
    } else if contains_text(text, "reopen"@) {
        lemma_best_exists(table, text, 3);
    } else if contains_text(text, "pick up"@) {
        lemma_best_exists(table, text, 4);
    } else if contains_text(text, "back to"@) {
        lemma_best_exists(table, text, 5);
    } else if contains_text(text, "restore"@) {
        lemma_best_exists(table, text, 6);
    } else if contains_text(text, "undo"@) {
        lemma_best_exists(table, text, 7);
    } else if contains_text(text, "go back"@) {
        lemma_best_exists(table, text, 8);
    } else if contains_text(text, "previous"@) {
        lemma_best_exists(table, text, 9);
    } else if contains_text(text, "revert"@) {
        lemma_best_exists(table, text, 10);
    } else if contains_text(text, "rollback"@) {
        lemma_best_exists(table, text, 11);
    } else if contains_text(text, "open"@) {
        lemma_best_exists(table, text, 12);
    } else if contains_text(text, "launch"@) {
        lemma_best_exists(table, text, 13);
    } else if contains_text(text, "start"@) {
        lemma_best_exists(table, text, 14);
    } else if contains_text(text, "run"@) {
        lemma_best_exists(table, text, 15);
    } else if contains_text(text, "show me"@) {
        lemma_best_exists(table, text, 16);
    } else if contains_text(text, "switch"@) {
        lemma_best_exists(table, text, 17);
    } else if contains_text(text, "change"@) {
        lemma_best_exists(table, text, 18);
    } else if contains_text(text, "move to"@) {
        lemma_best_exists(table, text, 19);
    } else if contains_text(text, "go to"@) {
        lemma_best_exists(table, text, 20);
    } else if contains_text(text, "toggle"@) {
        lemma_best_exists(table, text, 21);
    } else if contains_text(text, "search"@) {
        lemma_best_exists(table, text, 22);
    } else if contains_text(text, "find"@) {
        lemma_best_exists(table, text, 23);
    } else if contains_text(text, "look for"@) {
        lemma_best_exists(table, text, 24);
    } else if contains_text(text, "query"@) {
        lemma_best_exists(table, text, 25);
    }
}

/// Under any keyword table, a keyword that occurs in the text and is longer
/// than every other occurring keyword decides the intent; when no keyword
/// occurs, the intent is generic.
pub proof fn law_longest_keyword_wins(table: Seq<(Seq<char>, IntentType)>, text: Seq<char>, i: int)
    ensures
        0 <= i < table.len() && contains_text(text, table[i].0) && (forall|j: int|
            0 <= j < table.len() && j != i && contains_text(text, #[trigger] table[j].0) ==> table[j].0.len()
                < table[i].0.len()) ==> spec_classify(table, text) == table[i].1,
        (forall|j: int| 0 <= j < table.len() ==> !contains_text(text, #[trigger] table[j].0)) ==> spec_classify(
            table,
            text,
        ) == IntentType::Generic,
{
    if 0 <= i < table.len() && contains_text(text, table[i].0) && (forall|j: int|
        0 <= j < table.len() && j != i && contains_text(text, #[trigger] table[j].0) ==> table[j].0.len()
            < table[i].0.len()) {
        assert forall|j: int| #[trigger] kw_matches(table, text, j) && j != i implies table[j].0.len()
            < table[i].0.len() by {
            assert(contains_text(text, table[j].0));
        }
        assert(is_best_keyword(table, text, i));
        let c = choose|c: int| is_best_keyword(table, text, c);
        lemma_best_unique(table, text, c, i);
    }
    if forall|j: int| 0 <= j < table.len() ==> !contains_text(text, #[trigger] table[j].0) {
        assert forall|c: int| !is_best_keyword(table, text, c) by {
            if 0 <= c < table.len() {
                assert(!contains_text(text, table[c].0));
            }
        }
    }
}

/// A query shorter than two bytes once trimmed is not resolved.
pub fn query_too_short(query: &str) -> (r: bool)
    ensures
        r == ((vstd::utf8::encode_utf8(crate::text::trimmed(query@)).len() as usize) < 2),
{
    let t = crate::text::trim_text(query);
    t.len() < 2
}

/// Scores and ranks command suggestions.
pub struct CommandRanker;

impl CommandRanker {
    pub fn new() -> (r: Self) {
        CommandRanker
    }
}

#[derive(Debug, Clone)]
pub struct ActivePlan {
    pub id: String,
    pub title: String,
    pub status: String,
}

#[derive(Debug, Clone)]
pub struct RecentSnapshot {
    pub id: String,
    pub label: String,
    pub taken_at: String,
}

/// Cached desktop state. The battery percentage, a float, is kept by the
/// caller next to it.
#[derive(Debug, Clone)]
pub struct DesktopState {
    pub focused_app: String,
    pub focused_title: String,
    pub workspace: String,
    pub battery_state: String,
    pub network_connected: bool,
    pub network_ssid: String,
    pub clipboard_preview: String,
    pub media_player: String,
    pub media_title: String,
}

/// The fields of an event payload's `data` that context tracking reads;
/// each is present when the payload holds it with the right type.
#[derive(Debug, Clone)]
pub struct EventFields {
    pub app: Option<String>,
    pub title: Option<String>,
    pub workspace: Option<String>,
    pub state: Option<String>,
    pub connected: Option<bool>,
    pub ssid: Option<String>,
    pub player: Option<String>,
    pub preview: Option<String>,
}

pub open spec fn or_keep(o: Option<String>, old: Seq<char>) -> Seq<char> {
    match o {
        Some(s) => s@,
        None => old,
    }
}

fn set_if(target: &mut String, value: &Option<String>)
    ensures
        final(target)@ == or_keep(*value, old(target)@),
{
    match value {
        Some(v) => {
            *target = v.clone();
        },
        None => {},
    }
}

/// The state after an event of `kind` whose payload is tagged `event_type`.
pub open spec fn spec_apply_event(s: DesktopState, kind: Seq<char>, event_type: Seq<char>, d: EventFields) -> (
    Seq<char>,
    Seq<char>,
    Seq<char>,
    Seq<char>,
    bool,
    Seq<char>,
    Seq<char>,
    Seq<char>,
    Seq<char>,
) {
    let base = (
        s.focused_app@,
        s.focused_title@,
        s.workspace@,
        s.battery_state@,
        s.network_connected,
        s.network_ssid@,
        s.clipboard_preview@,
        s.media_player@,
        s.media_title@,
    );
    if kind == "Window"@ {
        if event_type == "WindowFocused"@ {
            (or_keep(d.app, base.0), or_keep(d.title, base.1), base.2, base.3, base.4, base.5, base.6, base.7, base.8)
        } else if event_type == "WorkspaceChanged"@ {
            (base.0, base.1, or_keep(d.workspace, base.2), base.3, base.4, base.5, base.6, base.7, base.8)
        } else {
            base
        }
    } else if kind == "System"@ {
        if event_type == "BatteryStatus"@ {
            (base.0, base.1, base.2, or_keep(d.state, base.3), base.4, base.5, base.6, base.7, base.8)
        } else if event_type == "NetworkStatus"@ {
            (
                base.0,
                base.1,
                base.2,
                base.3,
                match d.connected {
                    Some(c) => c,
                    None => base.4,
                },
                or_keep(d.ssid, base.5),
                base.6,
                base.7,
                base.8,
            )
        } else {
            base
        }
    } else if kind == "Audio"@ {
        if event_type == "MediaPlayback"@ {
            (base.0, base.1, base.2, base.3, base.4, base.5, base.6, or_keep(d.player, base.7), or_keep(d.title, base.8))
        } else {
            base
        }
    } else if kind == "Clipboard"@ {
        if event_type == "ClipboardUpdated"@ {
            (base.0, base.1, base.2, base.3, base.4, base.5, or_keep(d.preview, base.6), base.7, base.8)
        } else {
            base
        }
    } else {
        base
    }
}

pub open spec fn state_tuple(s: DesktopState) -> (
    Seq<char>,
    Seq<char>,
    Seq<char>,
    Seq<char>,
    bool,
    Seq<char>,
    Seq<char>,
    Seq<char>,
    Seq<char>,
) {
    (
        s.focused_app@,
        s.focused_title@,
        s.workspace@,
        s.battery_state@,
        s.network_connected,
        s.network_ssid@,
        s.clipboard_preview@,
        s.media_player@,
        s.media_title@,
    )
}

impl DesktopState {
    pub fn new() -> (s: Self)
        ensures
            s.focused_app@.len() == 0 && s.focused_title@.len() == 0 && s.workspace@.len() == 0,
            s.battery_state@.len() == 0 && !s.network_connected && s.network_ssid@.len() == 0,
            s.clipboard_preview@.len() == 0 && s.media_player@.len() == 0 && s.media_title@.len() == 0,
    {
        DesktopState {
            focused_app: String::new(),
            focused_title: String::new(),
            workspace: String::new(),
            battery_state: String::new(),
            network_connected: false,
            network_ssid: String::new(),
            clipboard_preview: String::new(),
            media_player: String::new(),
            media_title: String::new(),
        }
    }

    /// Update the cached state from an event of category `kind` whose
    /// payload is tagged `event_type`.
    pub fn apply_event(&mut self, kind: &str, event_type: &str, data: &EventFields)
        ensures
            state_tuple(*final(self)) == spec_apply_event(*old(self), kind@, event_type@, *data),
    {
        if text_eq(kind, "Window") {
            if text_eq(event_type, "WindowFocused") {
                set_if(&mut self.focused_app, &data.app);
                set_if(&mut self.focused_title, &data.title);
            } else if text_eq(event_type, "WorkspaceChanged") {
                set_if(&mut self.workspace, &data.workspace);
            }
        } else if text_eq(kind, "System") {
            if text_eq(event_type, "BatteryStatus") {
                set_if(&mut self.battery_state, &data.state);
            } else if text_eq(event_type, "NetworkStatus") {
                match data.connected {
                    Some(c) => {
                        self.network_connected = c;
                    },
                    None => {},
                }
                set_if(&mut self.network_ssid, &data.ssid);
            }
        } else if text_eq(kind, "Audio") {
            if text_eq(event_type, "MediaPlayback") {
                set_if(&mut self.media_player, &data.player);
                set_if(&mut self.media_title, &data.title);
            }
        } else if text_eq(kind, "Clipboard") {
            if text_eq(event_type, "ClipboardUpdated") {
                set_if(&mut self.clipboard_preview, &data.preview);
            }
        }
    }
}

/// Aggregated context: live desktop state plus recent data from the stores.
#[derive(Debug, Clone)]
pub struct AggregatedContext {
    pub desktop: DesktopState,
    pub recent_intents: Vec<String>,
    pub recent_actions: Vec<String>,
    pub active_plans: Vec<ActivePlan>,
    pub recent_snapshots: Vec<RecentSnapshot>,
}

impl AggregatedContext {
    pub fn new() -> (c: Self)
        ensures
            c.desktop.focused_app@.len() == 0 && c.desktop.focused_title@.len() == 0
                && c.desktop.workspace@.len() == 0,
            c.desktop.battery_state@.len() == 0 && !c.desktop.network_connected
                && c.desktop.network_ssid@.len() == 0,
            c.desktop.clipboard_preview@.len() == 0 && c.desktop.media_player@.len() == 0
                && c.desktop.media_title@.len() == 0,
            c.recent_intents@.len() == 0,
            c.recent_actions@.len() == 0,
            c.active_plans@.len() == 0,
            c.recent_snapshots@.len() == 0,
    {
        AggregatedContext {
            desktop: DesktopState::new(),
            recent_intents: Vec::new(),
            recent_actions: Vec::new(),
            active_plans: Vec::new(),
            recent_snapshots: Vec::new(),
        }
    }

    /// Replace the data that comes from the stores; the live state stays.
    pub fn refresh_from_stores(
        &mut self,
        recent_intents: Vec<String>,
        recent_actions: Vec<String>,
        active_plans: Vec<ActivePlan>,
        recent_snapshots: Vec<RecentSnapshot>,
    )
        ensures
            final(self).desktop == old(self).desktop,
            final(self).recent_intents == recent_intents,
            final(self).recent_actions == recent_actions,
            final(self).active_plans == active_plans,
            final(self).recent_snapshots == recent_snapshots,
    {
        self.recent_intents = recent_intents;
        self.recent_actions = recent_actions;
        self.active_plans = active_plans;
        self.recent_snapshots = recent_snapshots;
    }
}

/// How much each suggestion source counts for an intent, in hundredths.
pub open spec fn spec_biases(t: IntentType) -> Seq<(Seq<char>, u32)> {
    match t {
        IntentType::Continue => seq![
            ("workflow"@, 40u32),
            ("snapshot"@, 30u32),
            ("action"@, 15u32),
            ("semantic"@, 10u32),
            ("context"@, 10u32),
        ],
        IntentType::Restore => seq![
            ("snapshot"@, 50u32),
            ("workflow"@, 20u32),
            ("context"@, 10u32),
            ("action"@, 10u32),
            ("semantic"@, 5u32),
        ],
        IntentType::Open => seq![
            ("action"@, 40u32),
            ("context"@, 25u32),
            ("semantic"@, 15u32),
            ("workflow"@, 10u32),
            ("snapshot"@, 5u32),
        ],
        IntentType::Switch => seq![
            ("context"@, 45u32),
            ("action"@, 20u32),
            ("semantic"@, 15u32),
            ("workflow"@, 10u32),
            ("snapshot"@, 5u32),
        ],
        IntentType::Search => seq![
            ("semantic"@, 40u32),
            ("context"@, 25u32),
            ("action"@, 15u32),
            ("workflow"@, 10u32),
            ("snapshot"@, 5u32),
        ],
        IntentType::Generic => seq![
            ("action"@, 15u32),
            ("context"@, 15u32),
            ("semantic"@, 15u32),
            ("workflow"@, 10u32),
            ("snapshot"@, 10u32),
        ],
    }
}

pub open spec fn biases_view(v: Seq<(&'static str, u32)>) -> Seq<(Seq<char>, u32)> {
    v.map_values(|p: (&'static str, u32)| (p.0@, p.1))
}

fn five(
    a: (&'static str, u32),
    b: (&'static str, u32),
    c: (&'static str, u32),
    d: (&'static str, u32),
    e: (&'static str, u32),
) -> (r: Vec<(&'static str, u32)>)
    ensures
        biases_view(r@) == seq![(a.0@, a.1), (b.0@, b.1), (c.0@, c.1), (d.0@, d.1), (e.0@, e.1)],
{
    let r = vec![a, b, c, d, e];
    assert(biases_view(r@) =~= seq![(a.0@, a.1), (b.0@, b.1), (c.0@, c.1), (d.0@, d.1), (e.0@, e.1)]);
    r
}

/// The weight of each suggestion source under an intent, in hundredths.
pub fn compute_biases(t: IntentType) -> (r: Vec<(&'static str, u32)>)
    ensures
        biases_view(r@) == spec_biases(t),
{
    match t {
        IntentType::Continue => five(("workflow", 40), ("snapshot", 30), ("action", 15), ("semantic", 10), ("context", 10)),
        IntentType::Restore => five(("snapshot", 50), ("workflow", 20), ("context", 10), ("action", 10), ("semantic", 5)),
        IntentType::Open => five(("action", 40), ("context", 25), ("semantic", 15), ("workflow", 10), ("snapshot", 5)),
        IntentType::Switch => five(("context", 45), ("action", 20), ("semantic", 15), ("workflow", 10), ("snapshot", 5)),
        IntentType::Search => five(("semantic", 40), ("context", 25), ("action", 15), ("workflow", 10), ("snapshot", 5)),
        IntentType::Generic => five(("action", 15), ("context", 15), ("semantic", 15), ("workflow", 10), ("snapshot", 10)),
    }
}

/// The weight a source gets, in hundredths: its entry's, or ten for a
/// source the intent does not name.
pub open spec fn spec_bias_for(biases: Seq<(Seq<char>, u32)>, source: Seq<char>) -> u32
    decreases biases.len(),
{
    if biases.len() == 0 {
        10
    } else if biases[0].0 == source {
        biases[0].1
    } else {
        spec_bias_for(biases.drop_first(), source)
    }
}

pub fn bias_for(biases: &Vec<(&'static str, u32)>, source: &str) -> (r: u32)
    ensures
        r == spec_bias_for(biases_view(biases@), source@),
{
    let mut i: usize = 0;
    proof {
        assert(biases_view(biases@).skip(0) =~= biases_view(biases@));
    }
    while i < biases.len()
        invariant
            i <= biases@.len(),
            spec_bias_for(biases_view(biases@), source@) == spec_bias_for(biases_view(biases@).skip(i as int), source@),
        decreases biases@.len() - i,
    {
        proof {
            assert(biases_view(biases@).skip(i as int)[0] == (biases@[i as int].0@, biases@[i as int].1));
            assert(biases_view(biases@).skip(i as int).drop_first() =~= biases_view(biases@).skip(i + 1));
        }
        if text_eq(biases[i].0, source) {
            return biases[i].1;
        }
        i += 1;
    }
    proof {
        assert(biases_view(biases@).skip(i as int).len() == 0);
    }
    10
}

} // verus!
