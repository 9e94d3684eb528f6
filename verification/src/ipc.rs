//! How the bar reads a message from the daemon's event stream.
use vstd::prelude::*;
use vstd::string::*;

use crate::text::text_eq;

verus! {

/// The parts of a message the bar looks at: `kind.type`, whether
/// `kind.body` is present, the event category `kind.body.kind`, and for a
/// response `kind.body.Data.payload.code` and `.latency_ms`.
#[derive(Debug, Clone)]
pub struct WireFields {
    pub message_type: Option<String>,
    pub has_body: bool,
    pub event_kind: Option<String>,
    pub response_code: Option<String>,
    pub latency_ms: Option<u64>,
}

/// What a message is to the bar.
#[derive(Debug, Clone)]
pub enum Incoming {
    /// An answer to a ping.
    Pong { latency_ms: u64 },
    /// An event of the bus, of this category; its payload travels alongside.
    SystemEvent { kind: String },
    /// Anything else, kept as text.
    Raw,
}

pub open spec fn spec_classify(f: WireFields) -> Option<(bool, u64, Seq<char>)> {
    match f.message_type {
        Some(t) => if t@ == "Pong"@ {
            Some((true, 0u64, Seq::empty()))
        } else if t@ == "Event"@ && f.has_body {
            Some(
                (
                    false,
                    0u64,
                    match f.event_kind {
                        Some(k) => k@,
                        None => "unknown"@,
                    },
                ),
            )
        } else if t@ == "Response"@ && f.has_body && (f.response_code matches Some(c) && c@ == "PONG"@) {
            Some(
                (
                    true,
                    match f.latency_ms {
                        Some(l) => l,
                        None => 0u64,
                    },
                    Seq::empty(),
                ),
            )
        } else {
            None
        },
        None => None,
    }
}

/// Classify a message: `(true, latency, _)` is a pong, `(false, _, kind)` an
/// event, `None` raw text.
pub fn classify_incoming(f: &WireFields) -> (r: Incoming)
    ensures
        match spec_classify(*f) {
            Some((true, l, _)) => r == Incoming::Pong { latency_ms: l },
            Some((false, _, k)) => r matches Incoming::SystemEvent { kind } && kind@ == k,
            None => r is Raw,
        },
{
    match &f.message_type {
        Some(t) => {
            if text_eq(t.as_str(), "Pong") {
                Incoming::Pong { latency_ms: 0 }
            } else if text_eq(t.as_str(), "Event") && f.has_body {
                let kind = match &f.event_kind {
                    Some(k) => k.clone(),
                    None => String::from_str("unknown"),
                };
                Incoming::SystemEvent { kind }
            } else if text_eq(t.as_str(), "Response") && f.has_body {
                match &f.response_code {
                    Some(c) => if text_eq(c.as_str(), "PONG") {
                        Incoming::Pong {
                            latency_ms: match f.latency_ms {
                                Some(l) => l,
                                None => 0,
                            },
                        }
                    } else {
                        Incoming::Raw
                    },
                    None => Incoming::Raw,
                }
            } else {
                Incoming::Raw
            }
        },
        None => Incoming::Raw,
    }
}

} // verus!
