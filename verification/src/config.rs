//! Command-line settings of the bar.
use vstd::prelude::*;
use vstd::string::*;

verus! {

/// Where the bar finds the daemon, and how much it logs.
#[derive(Debug, Clone)]
pub struct Args {
    /// Path to enad's Unix domain socket.
    pub socket_path: String,
    /// Enable verbose logging.
    pub verbose: bool,
}

impl Args {
    /// The settings when no flag is given: the default socket, quiet logging.
    pub fn defaults() -> (a: Args)
        ensures
            a.socket_path@ == "/tmp/enad.sock"@,
            !a.verbose,
    {
        Args { socket_path: String::from_str("/tmp/enad.sock"), verbose: false }
    }
}

/// The outcome of pinging the daemon from the desktop shell.
#[derive(Debug, Clone)]
pub struct PingResult {
    pub ok: bool,
    pub latency_ms: Option<u64>,
    pub error: Option<String>,
}

impl PingResult {
    /// A ping the daemon received, with the round trip it took.
    pub fn reached(latency_ms: u64) -> (r: PingResult)
        ensures
            r.ok,
            r.latency_ms == Some(latency_ms),
            r.error is None,
    {
        PingResult { ok: true, latency_ms: Some(latency_ms), error: None }
    }
}

} // verus!
