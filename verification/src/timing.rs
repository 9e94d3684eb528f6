//! Interaction latency of the bar: the moments of one query's lifecycle,
//! read on a monotonic clock in microseconds, and the spans between them.
use vstd::prelude::*;

verus! {

/// Timing phase tracker for a single query lifecycle.
#[derive(Debug)]
pub struct QueryTiming {
    pub query: String,
    pub keystroke_ts: u64,
    pub debounce_end: Option<u64>,
    pub ipc_start: Option<u64>,
    pub ipc_end: Option<u64>,
    pub ranking_end: Option<u64>,
    pub render_end: Option<u64>,
}

/// The spans a finished query is reported with.
#[derive(Debug)]
pub struct TimingReport {
    pub query: String,
    /// Keystroke to render.
    pub total: Option<u64>,
    /// Keystroke to the end of the debounce.
    pub debounce: Option<u64>,
    /// Request sent to reply read.
    pub ipc: Option<u64>,
}

/// The span from `start` to `end`; an `end` before `start` counts as no time,
/// as `Instant::duration_since` does.
pub open spec fn span(start: u64, end: u64) -> u64 {
    if end >= start { (end - start) as u64 } else { 0 }
}

fn span_exec(start: u64, end: u64) -> (r: u64)
    ensures
        r == span(start, end),
{
    if end >= start { end - start } else { 0 }
}

impl QueryTiming {
    /// The spans of this query: each present when both of its ends are.
    pub fn report(&self) -> (r: TimingReport)
        ensures
            r.query@ == self.query@,
            r.total == match self.render_end {
                Some(e) => Some(span(self.keystroke_ts, e)),
                None => None,
            },
            r.debounce == match self.debounce_end {
                Some(e) => Some(span(self.keystroke_ts, e)),
                None => None,
            },
            r.ipc == match (self.ipc_start, self.ipc_end) {
                (Some(s), Some(e)) => Some(span(s, e)),
                _ => None,
            },
    {
        let total = match self.render_end {
            Some(e) => Some(span_exec(self.keystroke_ts, e)),
            None => None,
        };
        let debounce = match self.debounce_end {
            Some(e) => Some(span_exec(self.keystroke_ts, e)),
            None => None,
        };
        let ipc = match (self.ipc_start, self.ipc_end) {
            (Some(s), Some(e)) => Some(span_exec(s, e)),
            _ => None,
        };
        TimingReport { query: self.query.clone(), total, debounce, ipc }
    }
}

/// The query being timed, if any.
pub struct TimingTracker {
    pub active: Option<QueryTiming>,
}

impl TimingTracker {
    pub fn new() -> (t: Self)
        ensures
            t.active is None,
    {
        TimingTracker { active: None }
    }
}

/// Start timing a query at keystroke time `now`; any query timed before is dropped.
pub fn start_query(tracker: &mut TimingTracker, query: &str, now: u64)
    ensures
        final(tracker).active matches Some(t) && t.query@ == query@ && t.keystroke_ts == now
            && t.debounce_end is None && t.ipc_start is None && t.ipc_end is None
            && t.ranking_end is None && t.render_end is None,
{
    tracker.active = Some(QueryTiming {
        query: query.to_owned(),
        keystroke_ts: now,
        debounce_end: None,
        ipc_start: None,
        ipc_end: None,
        ranking_end: None,
        render_end: None,
    });
}

/// Mark the end of the debounce of the query being timed.
pub fn mark_debounce_end(tracker: &mut TimingTracker, now: u64)
    ensures
        match old(tracker).active {
            Some(t) => final(tracker).active == Some(QueryTiming { debounce_end: Some(now), ..t }),
            None => final(tracker).active is None,
        },
{
    match &mut tracker.active {
        Some(t) => {
            t.debounce_end = Some(now);
        },
        None => {},
    }
}

/// Mark the moment the request went to the daemon.
pub fn mark_ipc_start(tracker: &mut TimingTracker, now: u64)
    ensures
        match old(tracker).active {
            Some(t) => final(tracker).active == Some(QueryTiming { ipc_start: Some(now), ..t }),
            None => final(tracker).active is None,
        },
{
    match &mut tracker.active {
        Some(t) => {
            t.ipc_start = Some(now);
        },
        None => {},
    }
}

/// Mark the moment the daemon's reply was read.
pub fn mark_ipc_end(tracker: &mut TimingTracker, now: u64)
    ensures
        match old(tracker).active {
            Some(t) => final(tracker).active == Some(QueryTiming { ipc_end: Some(now), ..t }),
            None => final(tracker).active is None,
        },
{
    match &mut tracker.active {
        Some(t) => {
            t.ipc_end = Some(now);
        },
        None => {},
    }
}

/// Mark the render of the results; the finished query's report is returned
/// for logging.
pub fn mark_render_end(tracker: &mut TimingTracker, now: u64) -> (r: Option<TimingReport>)
    ensures
        match old(tracker).active {
            Some(t) => {
                &&& final(tracker).active == Some(QueryTiming { render_end: Some(now), ..t })
                &&& r matches Some(rep) && rep.query@ == t.query@ && rep.total == Some(span(t.keystroke_ts, now))
                    && rep.debounce == match t.debounce_end {
                        Some(e) => Some(span(t.keystroke_ts, e)),
                        None => None,
                    } && rep.ipc == match (t.ipc_start, t.ipc_end) {
                        (Some(s), Some(e)) => Some(span(s, e)),
                        _ => None,
                    }
            },
            None => final(tracker).active is None && r is None,
        },
{
    match &mut tracker.active {
        Some(t) => {
            t.render_end = Some(now);
            Some(t.report())
        },
        None => None,
    }
}

} // verus!
