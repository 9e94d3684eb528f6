//! NetworkManager readings: connectivity states and network names.
use vstd::prelude::*;
use vstd::string::*;
use vstd::utf8::*;

verus! {

/// NetworkManager's global state, named, and whether it counts as online.
pub open spec fn spec_state_label(state: u32) -> (Seq<char>, bool) {
    if state == 10 {
        ("asleep"@, false)
    } else if state == 20 {
        ("disconnected"@, false)
    } else if state == 30 {
        ("disconnecting"@, false)
    } else if state == 40 {
        ("connecting"@, false)
    } else if state == 50 {
        ("connected-local"@, false)
    } else if state == 60 {
        ("connected-site"@, true)
    } else if state == 70 {
        ("connected-global"@, true)
    } else {
        ("unknown"@, false)
    }
}

pub fn state_label(state: u32) -> (r: (&'static str, bool))
    ensures
        (r.0@, r.1) == spec_state_label(state),
{
    match state {
        10 => ("asleep", false),
        20 => ("disconnected", false),
        30 => ("disconnecting", false),
        40 => ("connecting", false),
        50 => ("connected-local", false),
        60 => ("connected-site", true),
        70 => ("connected-global", true),
        _ => ("unknown", false),
    }
}

/// The text `String::from_utf8_lossy` makes of some bytes.
pub uninterp spec fn utf8_lossy(bytes: Seq<u8>) -> Seq<char>;

/// `String::from_utf8_lossy`: the bytes read as UTF-8, each invalid sequence
/// replaced by U+FFFD; bytes that are valid UTF-8 read as their text.
#[verifier::external_body]
fn from_utf8_lossy_text(raw: &[u8]) -> (r: String)
    ensures
        r@ == utf8_lossy(raw@),
        valid_utf8(raw@) ==> r@ == decode_utf8(raw@),
{
    String::from_utf8_lossy(raw).to_string()
}

/// The network name NetworkManager reports as bytes.
pub fn decode_ssid(raw: Vec<u8>) -> (r: String)
    ensures
        r@ == utf8_lossy(raw@),
        valid_utf8(raw@) ==> r@ == decode_utf8(raw@),
{
    from_utf8_lossy_text(raw.as_slice())
}

} // verus!
