//! Microphone capture for the bar. Capture is not available yet: every
//! request reports that nothing started.
use vstd::prelude::*;

verus! {

/// Audio capture state.
#[derive(Debug, Clone, Copy, PartialEq, Eq, Structural)]
pub enum AudioState {
    /// Microphone inactive.
    Idle,
    /// Capturing audio from microphone.
    Listening,
    /// Audio data being processed by AI runtime.
    Processing,
}

/// Initialize the audio subsystem; there is nothing to set up yet.
pub fn init() {
}

/// Request microphone capture: no capture backend exists, so none starts.
pub fn start_capture() -> (r: Option<()>)
    ensures
        r is None,
{
    None
}

/// Stop active microphone capture; nothing is ever running.
pub fn stop_capture() {
}

} // verus!
