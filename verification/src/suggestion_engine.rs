//! The ambient suggestion engine's reaction to system events: it keeps a
//! window of recent events, lets the events that matter trigger the rules
//! (at most once per trigger every thirty seconds), hands out the onboarding
//! suggestions on the first activity of a session, and picks which of the
//! generated suggestions to publish.
use vstd::prelude::*;

use crate::events::PayloadKind;
use crate::ids::{NANOS_PER_HOUR, NANOS_PER_SEC, utc_now_parts};
use crate::suggestion::{
    ContextEvent, ContextWindow, DismissalRecord, MAX_RECENT_EVENTS, MIN_PRIORITY, Suggestion,
    TriggerLimiter, build_context_window, context_blocked, generate_suggestions,
    is_context_blocked, last_time, may_fire, onboarding_set, onboarding_suggestions, record_event,
    rule_made, spec_fired_kinds, surfaces, window_of,
};

verus! {

/// Which generation trigger an event of this payload fires: focus and
/// workspace changes, and the system going idle or becoming active.
pub open spec fn spec_trigger_for(p: PayloadKind) -> Option<Seq<char>> {
    match p {
        PayloadKind::WindowFocused => Some("window_focus"@),
        PayloadKind::WorkspaceChanged => Some("workspace_change"@),
        PayloadKind::SystemIdle => Some("system_idle"@),
        PayloadKind::SystemActive => Some("system_active"@),
        _ => None,
    }
}

pub fn trigger_for(p: PayloadKind) -> (r: Option<&'static str>)
    ensures
        match spec_trigger_for(p) {
            Some(t) => r matches Some(s) && s@ == t,
            None => r is None,
        },
{
    match p {
        PayloadKind::WindowFocused => Some("window_focus"),
        PayloadKind::WorkspaceChanged => Some("workspace_change"),
        PayloadKind::SystemIdle => Some("system_idle"),
        PayloadKind::SystemActive => Some("system_active"),
        _ => None,
    }
}

/// The newest events of a history, at most the window's size.
pub open spec fn recent_window(all: Seq<ContextEvent>) -> Seq<ContextEvent> {
    if all.len() > MAX_RECENT_EVENTS {
        all.skip(all.len() - MAX_RECENT_EVENTS)
    } else {
        all
    }
}

/// What the engine made of one event.
pub struct EventOutcome {
    /// The context window the rules ran on, when the event triggered them.
    pub window: Option<ContextWindow>,
    /// The suggestions the rules produced that are worth surfacing.
    pub generated: Vec<Suggestion>,
    /// The onboarding suggestions, on the session's first activity only.
    pub onboarding: Vec<Suggestion>,
}

/// The engine's state between events.
pub struct SuggestionEngine {
    /// Recent events, oldest first.
    pub recent_events: Vec<ContextEvent>,
    /// When each trigger last generated suggestions.
    pub limiter: TriggerLimiter,
    /// Whether this session's onboarding suggestions were handed out.
    pub onboarding_generated: bool,
}

impl SuggestionEngine {
    pub open spec fn wf(&self) -> bool {
        self.recent_events@.len() <= MAX_RECENT_EVENTS
    }

    pub fn new() -> (r: Self)
        ensures
            r.wf(),
            r.recent_events@.len() == 0,
            r.limiter.last@.len() == 0,
            !r.onboarding_generated,
    {
        SuggestionEngine {
            recent_events: Vec::new(),
            limiter: TriggerLimiter::new(),
            onboarding_generated: false,
        }
    }

    /// Feed an event, seen at `now` (nanoseconds after the Unix epoch, during `hour` of a day
    /// numbered from Monday as 1): it joins the recent events; if it fires a
    /// trigger that may fire now, the rules run on the resulting window;
    /// the first `SystemActive` of the session also yields the onboarding
    /// suggestions.
    pub fn on_event_at(
        &mut self,
        event: ContextEvent,
        payload: PayloadKind,
        now: i128,
        hour: u32,
        weekday_from_monday: u32,
    ) -> (r: EventOutcome)
        requires
            old(self).wf(),
            now + NANOS_PER_HOUR <= i128::MAX,
        ensures
            final(self).wf(),
            final(self).recent_events@ == recent_window(old(self).recent_events@.push(event)),
            match spec_trigger_for(payload) {
                Some(t) => if may_fire(old(self).limiter.last@, t, now) {
                    &&& r.window matches Some(w) && window_of(
                        w,
                        final(self).recent_events@,
                        hour,
                        weekday_from_monday,
                    ) && r.generated@.map_values(|s: Suggestion| s.kind) == spec_fired_kinds(w)
                        && forall|k: int| 0 <= k < r.generated@.len() ==> rule_made(w, #[trigger] r.generated@[k], now)
                    &&& last_time(final(self).limiter.last@, t) == Some(now)
                    &&& forall|other: Seq<char>| other != t ==> last_time(final(self).limiter.last@, other)
                        == last_time(old(self).limiter.last@, other)
                } else {
                    &&& r.window is None
                    &&& r.generated@.len() == 0
                    &&& final(self).limiter.last@ == old(self).limiter.last@
                },
                None => {
                    &&& r.window is None
                    &&& r.generated@.len() == 0
                    &&& final(self).limiter.last@ == old(self).limiter.last@
                },
            },
            (payload == PayloadKind::SystemActive && !old(self).onboarding_generated) ==> (
            final(self).onboarding_generated && onboarding_set(r.onboarding@, now)),
            !(payload == PayloadKind::SystemActive && !old(self).onboarding_generated) ==> (
            final(self).onboarding_generated == old(self).onboarding_generated && r.onboarding@.len()
                == 0),
    {
        record_event(&mut self.recent_events, event);
        let mut window: Option<ContextWindow> = None;
        let mut generated: Vec<Suggestion> = Vec::new();
        match trigger_for(payload) {
            Some(t) => {
                if self.limiter.try_acquire(t, now) {
                    let w = build_context_window(&self.recent_events, hour, weekday_from_monday);
                    let all = generate_suggestions(&w, now);
                    generated = keep_surfacing(all);
                    window = Some(w);
                }
            },
            None => {},
        }
        let mut onboarding: Vec<Suggestion> = Vec::new();
        if payload == PayloadKind::SystemActive && !self.onboarding_generated {
            self.onboarding_generated = true;
            onboarding = onboarding_suggestions(now);
        }
        EventOutcome { window, generated, onboarding }
    }

    /// Feed an event seen now, by the UTC clock: `on_event_at` at the
    /// clock's reading. Whatever the clock reads, the event joins the recent
    /// events, an event that fires no trigger generates nothing, and the
    /// session's first `SystemActive` hands out the onboarding suggestions.
    pub fn on_event(&mut self, event: ContextEvent, payload: PayloadKind) -> (r: EventOutcome)
        requires
            old(self).wf(),
        ensures
            final(self).wf(),
            final(self).recent_events@ == recent_window(old(self).recent_events@.push(event)),
            spec_trigger_for(payload) is None ==> {
                &&& r.window is None
                &&& r.generated@.len() == 0
                &&& final(self).limiter.last@ == old(self).limiter.last@
            },
            (payload == PayloadKind::SystemActive && !old(self).onboarding_generated) ==> (
            final(self).onboarding_generated && exists|t: i128| #[trigger] onboarding_set(r.onboarding@, t)),
            !(payload == PayloadKind::SystemActive && !old(self).onboarding_generated) ==> (
            final(self).onboarding_generated == old(self).onboarding_generated && r.onboarding@.len()
                == 0),
    {
        let (secs, nanos, hour, weekday) = utc_now_parts();
        let now = secs as i128 * NANOS_PER_SEC + nanos as i128;
        let r = self.on_event_at(event, payload, now, hour, weekday);
        proof {
            if payload == PayloadKind::SystemActive && !old(self).onboarding_generated {
                assert(onboarding_set(r.onboarding@, now));
            }
        }
        r
    }
}

/// Drop the suggestions below the minimum priority, keeping the order.
fn keep_surfacing(all: Vec<Suggestion>) -> (r: Vec<Suggestion>)
    ensures
        r@ == all@.filter(|s: Suggestion| s.priority >= MIN_PRIORITY),
        (forall|k: int| 0 <= k < all@.len() ==> (#[trigger] all@[k]).priority >= MIN_PRIORITY) ==> r@
            == all@,
{
    let ghost orig = all@;
    let mut rest = all;
    let mut out: Vec<Suggestion> = Vec::new();
    let ghost mut i: int = 0;
    while rest.len() > 0
        invariant
            0 <= i <= orig.len(),
            rest@ == orig.skip(i),
            out@ == orig.take(i).filter(|s: Suggestion| s.priority >= MIN_PRIORITY),
            (forall|k: int| 0 <= k < orig.len() ==> (#[trigger] orig[k]).priority >= MIN_PRIORITY)
                ==> out@ == orig.take(i),
        decreases rest@.len(),
    {
        let s = rest.remove(0);
        proof {
            assert(s == orig[i]);
            assert(orig.take(i + 1) =~= orig.take(i).push(s));
            orig.take(i).lemma_filter_push(s, |s: Suggestion| s.priority >= MIN_PRIORITY);
            i = i + 1;
            assert(rest@ =~= orig.skip(i));
        }
        if surfaces(&s) {
            out.push(s);
        }
    }
    proof {
        assert(orig.take(i) =~= orig);
    }
    out
}

/// Whether a generated suggestion is published: it is worth surfacing and
/// no dismissal still blocks its context.
pub open spec fn publishable(dismissals: Seq<DismissalRecord>, now: i128) -> spec_fn(Suggestion) -> bool {
    |s: Suggestion| s.priority >= MIN_PRIORITY && !context_blocked(dismissals, s.context_hash@, now)
}

/// The generated suggestions to store and announce, in order.
pub fn fresh_suggestions(candidates: Vec<Suggestion>, dismissals: &Vec<DismissalRecord>, now: i128) -> (r:
    Vec<Suggestion>)
    ensures
        r@ == candidates@.filter(publishable(dismissals@, now)),
{
    let ghost orig = candidates@;
    let ghost p = publishable(dismissals@, now);
    let mut rest = candidates;
    let mut out: Vec<Suggestion> = Vec::new();
    let ghost mut i: int = 0;
    while rest.len() > 0
        invariant
            0 <= i <= orig.len(),
            rest@ == orig.skip(i),
            p == publishable(dismissals@, now),
            out@ == orig.take(i).filter(p),
        decreases rest@.len(),
    {
        let s = rest.remove(0);
        proof {
            assert(orig.take(i + 1) =~= orig.take(i).push(s));
            orig.take(i).lemma_filter_push(s, p);
            i = i + 1;
            assert(rest@ =~= orig.skip(i));
        }
        if surfaces(&s) && !is_context_blocked(dismissals, s.context_hash.as_str(), now) {
            out.push(s);
        }
    }
    proof {
        assert(orig.take(i) =~= orig);
    }
    out
}

} // verus!
