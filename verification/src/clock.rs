use vstd::prelude::*;
use crate::models::item::Timestamp;

verus! {

/// What `DateTime::<Utc>::to_rfc3339` writes for the instant (seconds, nanoseconds) since the epoch.
pub uninterp spec fn rfc3339_text(secs: i64, nanos: u32) -> Seq<char>;

/// What `DateTime::<Utc>::format("%Y%m%d_%H%M%S")` writes for the instant.
pub uninterp spec fn compact_stamp_text(secs: i64, nanos: u32) -> Seq<char>;

/// What `DateTime::<Utc>::format("%Y-%m-%d %H:%M")` writes for the instant.
pub uninterp spec fn minute_stamp_text(secs: i64, nanos: u32) -> Seq<char>;

/// What `DateTime::<Utc>::format("%Y-%m-%d %H:%M:%S UTC")` writes for the instant.
pub uninterp spec fn second_stamp_text(secs: i64, nanos: u32) -> Seq<char>;

/// The machine's clock, as std reads it.
#[verifier::external_type_specification]
#[verifier::external_body]
pub struct ExSystemTime(std::time::SystemTime);

/// Calls `std::time::SystemTime::now`. Nothing is stated of the value: it
/// depends on the machine and the moment.
#[verifier::external_body]
fn system_now() -> std::time::SystemTime {
    std::time::SystemTime::now()
}

/// Calls `SystemTime::duration_since(UNIX_EPOCH)`: `Ok` with the time since the
/// epoch, or `Err` with the time before it (the error's `duration`). It does not
/// panic; nothing is stated of the values.
#[verifier::external_body]
fn since_epoch(t: std::time::SystemTime) -> Result<core::time::Duration, core::time::Duration> {
    match t.duration_since(std::time::UNIX_EPOCH) {
        Ok(d) => Ok(d),
        Err(e) => Err(e.duration()),
    }
}

/// Calls `Duration::as_secs`: the whole seconds of a duration.
#[verifier::external_body]
fn whole_seconds(d: &core::time::Duration) -> u64 {
    d.as_secs()
}

/// Calls `Duration::subsec_nanos`: the fraction of a second, in nanoseconds,
/// which std documents as less than one billion.
#[verifier::external_body]
fn fraction_nanos(d: &core::time::Duration) -> (r: u32)
    ensures
        r < 1_000_000_000,
{
    d.subsec_nanos()
}

/// The current time, as seconds and nanoseconds since the epoch: negative
/// seconds before it, and the nearest end of the `i64` range for a clock beyond
/// it. Reading the clock never panics. The clock's value is not stated: it
/// depends on the machine and the moment.
pub(crate) fn current_time() -> (t: Timestamp)
    ensures
        t.nanos < 1_000_000_000,
{
    match since_epoch(system_now()) {
        Ok(d) => {
            let s = whole_seconds(&d);
            let n = fraction_nanos(&d);
            if s <= 0x7fff_ffff_ffff_ffffu64 {
                Timestamp { secs: s as i64, nanos: n }
            } else {
                Timestamp { secs: i64::MAX, nanos: 999_999_999 }
            }
        },
        Err(d) => {
            let s = whole_seconds(&d);
            let n = fraction_nanos(&d);
            if n == 0 {
                if s <= 0x8000_0000_0000_0000u64 {
                    Timestamp { secs: (0i128 - s as i128) as i64, nanos: 0 }
                } else {
                    Timestamp { secs: i64::MIN, nanos: 0 }
                }
            } else if s < 0x8000_0000_0000_0000u64 {
                Timestamp { secs: (-1i128 - s as i128) as i64, nanos: 1_000_000_000 - n }
            } else {
                Timestamp { secs: i64::MIN, nanos: 0 }
            }
        },
    }
}

/// Calls `chrono::DateTime::<Utc>::from_timestamp` and `to_rfc3339`; the text is
/// named by `rfc3339_text` (an instant outside chrono's range gives the empty text).
#[verifier::external_body]
pub(crate) fn rfc3339(t: Timestamp) -> (r: String)
    ensures
        r@ == rfc3339_text(t.secs, t.nanos),
{
    match chrono::DateTime::<chrono::Utc>::from_timestamp(t.secs, t.nanos) {
        Some(dt) => dt.to_rfc3339(),
        None => String::new(),
    }
}

/// Calls `chrono::DateTime::<Utc>::from_timestamp` and `format("%Y%m%d_%H%M%S")`;
/// the text is named by `compact_stamp_text` (an instant outside chrono's range
/// gives the empty text).
#[verifier::external_body]
pub(crate) fn compact_stamp(t: Timestamp) -> (r: String)
    ensures
        r@ == compact_stamp_text(t.secs, t.nanos),
{
    match chrono::DateTime::<chrono::Utc>::from_timestamp(t.secs, t.nanos) {
        Some(dt) => dt.format("%Y%m%d_%H%M%S").to_string(),
        None => String::new(),
    }
}

/// Calls `chrono::DateTime::<Utc>::from_timestamp` and `format("%Y-%m-%d %H:%M")`;
/// the text is named by `minute_stamp_text` (an instant outside chrono's range
/// gives the empty text).
#[verifier::external_body]
pub(crate) fn minute_stamp(t: Timestamp) -> (r: String)
    ensures
        r@ == minute_stamp_text(t.secs, t.nanos),
{
    match chrono::DateTime::<chrono::Utc>::from_timestamp(t.secs, t.nanos) {
        Some(dt) => dt.format("%Y-%m-%d %H:%M").to_string(),
        None => String::new(),
    }
}

/// Calls `chrono::DateTime::<Utc>::from_timestamp` and
/// `format("%Y-%m-%d %H:%M:%S UTC")`; the text is named by `second_stamp_text`
/// (an instant outside chrono's range gives the empty text).
#[verifier::external_body]
pub(crate) fn second_stamp(t: Timestamp) -> (r: String)
    ensures
        r@ == second_stamp_text(t.secs, t.nanos),
{
    match chrono::DateTime::<chrono::Utc>::from_timestamp(t.secs, t.nanos) {
        Some(dt) => dt.format("%Y-%m-%d %H:%M:%S UTC").to_string(),
        None => String::new(),
    }
}

} // verus!
