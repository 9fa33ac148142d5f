use std::time::Duration;
use std::time::SystemTime;
use vstd::prelude::*;

verus! {

#[verifier::external_type_specification]
#[verifier::external_body]
pub struct ExSystemTime(SystemTime);

/// What `SystemTime::duration_since(UNIX_EPOCH)` gives for a time point, `None` for
/// a point before the epoch.
pub uninterp spec fn span_since_epoch(t: SystemTime) -> Option<Duration>;

/// What `Duration::as_millis` gives: the whole milliseconds in a span.
pub uninterp spec fn span_millis(d: Duration) -> u128;

/// Calls `std::time::SystemTime::now`. Nothing is promised of the time point read:
/// it depends on when the call is made.
#[verifier::external_body]
fn system_time_now() -> (t: SystemTime) {
    SystemTime::now()
}

/// Calls `SystemTime::duration_since` with `UNIX_EPOCH`; an error (a time point
/// before the epoch) becomes `None`. The result is named by `span_since_epoch`.
#[verifier::external_body]
fn duration_since_epoch(t: &SystemTime) -> (r: Option<Duration>)
    ensures
        r == span_since_epoch(*t),
{
    t.duration_since(std::time::UNIX_EPOCH).ok()
}

/// Calls `Duration::as_millis`. The result is named by `span_millis`.
#[verifier::external_body]
fn duration_as_millis(d: &Duration) -> (r: u128)
    ensures
        r == span_millis(*d),
{
    d.as_millis()
}

/// The library clock's reading of a system time point: the whole milliseconds since
/// the UNIX epoch, 0 for a point before the epoch, `u64::MAX` past the range of `u64`.
pub open spec fn millis_of(point: SystemTime) -> u64 {
    match span_since_epoch(point) {
        Some(d) => if span_millis(d) > u64::MAX as u128 {
            u64::MAX
        } else {
            span_millis(d) as u64
        },
        None => 0,
    }
}

/// Milliseconds since the UNIX epoch on the system clock: 0 for a clock set before
/// the epoch, `u64::MAX` past the range of `u64`. Which time point is read depends on
/// the time of the call, so the reading itself is not fixed.
pub fn now_millis() -> (t: u64)
    ensures
        exists|point: SystemTime| t == millis_of(point),
{
    let point = system_time_now();
    let t = match duration_since_epoch(&point) {
        Some(d) => {
            let ms = duration_as_millis(&d);
            if ms > u64::MAX as u128 {
                u64::MAX
            } else {
                ms as u64
            }
        },
        None => 0,
    };
    assert(t == millis_of(point));
    t
}

} // verus!
