//! Identifiers and clock readings that come from outside crates.
use chrono::{Datelike, Timelike};
use vstd::prelude::*;

use crate::text::hex_char;

verus! {

/// `uuid::Uuid::new_v4()` taken as its 128-bit value. The source masks a
/// random number so that the version nibble reads 4 and the variant bits read
/// `10`; nothing else is known of the value.
#[verifier::external_body]
pub(crate) fn new_id() -> (r: u128)
    ensures
        r & 0x0000_0000_0000_f000_c000_0000_0000_0000u128 == 0x0000_0000_0000_4000_8000_0000_0000_0000u128,
{
    uuid::Uuid::new_v4().as_u128()
}

/// Nanoseconds in a second. Instants are kept as nanoseconds after the Unix
/// epoch, the precision of chrono's `DateTime`.
pub const NANOS_PER_SEC: i128 = 1_000_000_000;

/// Nanoseconds in a minute, an hour and a day.
pub const NANOS_PER_MINUTE: i128 = 60_000_000_000;
pub const NANOS_PER_HOUR: i128 = 3_600_000_000_000;
pub const NANOS_PER_DAY: i128 = 86_400_000_000_000;

/// A bound above every second after the Unix epoch that a chrono date
/// reaches: its years end at `MAX_YEAR`, 262142, about 8.2e12 seconds.
pub const SECS_LIMIT: i64 = 10_000_000_000_000;

/// A bound above every instant, in nanoseconds, that the clock gives.
pub const CLOCK_LIMIT: i128 = 10_000_000_000_000_000_000_000;

/// `chrono::Utc::now()` read once: its Unix seconds, the nanoseconds into
/// that second, its hour of the day and its weekday numbered from Monday as
/// 1. Its source takes the system clock's distance from the epoch (and
/// panics when the clock reads earlier) and unwraps
/// `DateTime::from_timestamp` of its whole seconds and sub-second
/// nanoseconds, so a reading that comes back is neither negative nor past
/// chrono's last year, and its nanoseconds stay below a second. chrono
/// documents the hour as lying in `0..=23` and the weekday number in
/// `1..=7`; the reading itself is not stated.
#[verifier::external_body]
pub(crate) fn utc_now_parts() -> (r: (i64, u32, u32, u32))
    ensures
        0 <= r.0 < SECS_LIMIT,
        r.1 < 1_000_000_000,
        r.2 < 24,
        1 <= r.3 <= 7,
{
    let now = chrono::Utc::now();
    (now.timestamp(), now.timestamp_subsec_nanos(), now.hour(), now.weekday().number_from_monday())
}

/// An instant in nanoseconds from its whole seconds and the nanoseconds into
/// the second.
pub open spec fn instant_of(secs: i64, nanos: u32) -> int {
    secs * NANOS_PER_SEC + nanos
}

/// The UTC clock's reading, in nanoseconds after the Unix epoch.
pub(crate) fn now_nanos() -> (r: i128)
    ensures
        0 <= r < CLOCK_LIMIT,
{
    let (secs, nanos, _, _) = utc_now_parts();
    secs as i128 * NANOS_PER_SEC + nanos as i128
}

/// The Unix second of 262142-12-31T23:59:59 UTC, the last instant of
/// chrono's last year (`MAX_YEAR`); `DateTime::from_timestamp` accepts every
/// second from the epoch up to it.
pub const LAST_CHRONO_SECOND: i64 = 8_210_266_876_799;

/// The last nanosecond chrono's dates reach, 262142-12-31T23:59:59.999999999.
pub const LAST_CHRONO_NANO: i128 = 8_210_266_876_799_999_999_999;

/// What `chrono` writes as RFC 3339 for an instant given in Unix seconds and
/// the nanoseconds into that second.
pub uninterp spec fn rfc3339_of(secs: i64, nanos: u32) -> Seq<char>;

/// `DateTime::<Utc>::from_timestamp(secs, nanos)` written by `to_rfc3339`;
/// `None` where chrono cannot represent the instant.
#[verifier::external_body]
fn format_rfc3339_parts(secs: i64, nanos: u32) -> (r: Option<String>)
    ensures
        r matches Some(s) ==> s@ == rfc3339_of(secs, nanos),
        0 <= secs <= LAST_CHRONO_SECOND && nanos < 1_000_000_000 ==> r is Some,
{
    match chrono::DateTime::<chrono::Utc>::from_timestamp(secs, nanos) {
        Some(d) => Some(d.to_rfc3339()),
        None => None,
    }
}

/// The RFC 3339 text chrono writes for an instant given in nanoseconds.
pub open spec fn rfc3339_at(t: i128) -> Seq<char> {
    rfc3339_of((t / NANOS_PER_SEC) as i64, (t % NANOS_PER_SEC) as u32)
}

/// An instant, in nanoseconds, written as RFC 3339; `None` where chrono
/// cannot represent it.
pub(crate) fn format_rfc3339(t: i128) -> (r: Option<String>)
    ensures
        r matches Some(s) ==> s@ == rfc3339_at(t),
        0 <= t <= LAST_CHRONO_NANO ==> r is Some,
{
    let secs = match t.checked_div_euclid(NANOS_PER_SEC) {
        Some(q) => q,
        None => return None,
    };
    let nanos = match t.checked_rem_euclid(NANOS_PER_SEC) {
        Some(m) => m,
        None => return None,
    };
    if secs < i64::MIN as i128 || secs > i64::MAX as i128 {
        return None;
    }
    assert(0 <= nanos < NANOS_PER_SEC);
    format_rfc3339_parts(secs as i64, nanos as u32)
}

/// The `width` lowest hexadecimal digits of `n`, most significant first, in
/// lower case.
pub open spec fn hex_digits(n: nat, width: nat) -> Seq<char>
    decreases width,
{
    if width == 0 {
        Seq::empty()
    } else {
        hex_digits(n / 16, (width - 1) as nat).push(hex_char((n % 16) as int))
    }
}

/// The hyphenated form of a 128-bit value: its thirty-two lower-case
/// hexadecimal digits, grouped 8-4-4-4-12.
pub open spec fn uuid_text(id: u128) -> Seq<char> {
    let d = hex_digits(id as nat, 32);
    d.subrange(0, 8) + seq!['-'] + d.subrange(8, 12) + seq!['-'] + d.subrange(12, 16) + seq!['-']
        + d.subrange(16, 20) + seq!['-'] + d.subrange(20, 32)
}

/// `uuid::Uuid::from_u128(id)` written with `to_string`, which the crate's
/// `Display` writes as the hyphenated lower-case form of the value's
/// big-endian bytes.
#[verifier::external_body]
pub(crate) fn format_id(id: u128) -> (r: String)
    ensures
        r@ == uuid_text(id),
{
    uuid::Uuid::from_u128(id).to_string()
}


/// `SystemTime::now()` as whole seconds after the Unix epoch; 0 when the
/// clock reads earlier than the epoch. The reading itself is not stated.
#[verifier::external_body]
pub(crate) fn system_now_secs() -> (r: i64) {
    match std::time::SystemTime::now().duration_since(std::time::UNIX_EPOCH) {
        Ok(d) => d.as_secs() as i64,
        Err(_) => 0,
    }
}

} // verus!
