//! UPower readings: battery states.
use vstd::prelude::*;

verus! {

/// UPower's battery state, named.
pub open spec fn spec_state_label(state: u32) -> Seq<char> {
    if state == 1 {
        "charging"@
    } else if state == 2 {
        "discharging"@
    } else if state == 3 {
        "empty"@
    } else if state == 4 {
        "fully-charged"@
    } else if state == 5 {
        "pending-charge"@
    } else if state == 6 {
        "pending-discharge"@
    } else {
        "unknown"@
    }
}

pub fn state_label(state: u32) -> (r: &'static str)
    ensures
        r@ == spec_state_label(state),
{
    match state {
        1 => "charging",
        2 => "discharging",
        3 => "empty",
        4 => "fully-charged",
        5 => "pending-charge",
        6 => "pending-discharge",
        _ => "unknown",
    }
}

} // verus!
