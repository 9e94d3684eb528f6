//! Desktop notifications: how urgent one is.
use vstd::prelude::*;
use vstd::string::*;

verus! {

/// The urgency hint of a notification, named: "low", "normal" or
/// "critical"; "normal" when the hint is missing or not one of 0, 1, 2.
/// `hint` is the hint's value when it is an unsigned integer, and
/// `present` whether the hint is there at all.
pub open spec fn spec_urgency_label(present: bool, hint: Option<u64>) -> Seq<char> {
    if present && hint == Some(0u64) {
        "low"@
    } else if present && hint == Some(2u64) {
        "critical"@
    } else {
        "normal"@
    }
}

pub fn urgency_label(present: bool, hint: Option<u64>) -> (r: String)
    ensures
        r@ == spec_urgency_label(present, hint),
{
    if present {
        match hint {
            Some(0) => String::from_str("low"),
            Some(1) => String::from_str("normal"),
            Some(2) => String::from_str("critical"),
            _ => String::from_str("normal"),
        }
    } else {
        String::from_str("normal")
    }
}

} // verus!
