//! What the library takes from the machine it runs on: clocks, chance and
//! fresh identifiers. Nothing here is proved; each item says what it assumes.

use vstd::prelude::*;

verus! {

/// `std::time::Instant`, a point on the monotonic clock of the process. The
/// library carries such values around and never looks inside them.
#[verifier::external_type_specification]
#[verifier::external_body]
pub struct ExInstant(std::time::Instant);

/// `Instant::now`: the present moment. Nothing is assumed of the value.
pub assume_specification[ std::time::Instant::now ]() -> (t: std::time::Instant)
;

/// `Clone` for `Instant`, which is a `Copy` type: the clone is the same instant.
pub assume_specification[ <std::time::Instant as Clone>::clone ](t: &std::time::Instant) -> (r:
    std::time::Instant)
    ensures
        r == *t,
;

/// `Instant::elapsed`: the time that has passed since the instant. Nothing is
/// assumed of the value; the standard library does not panic here.
pub assume_specification[ std::time::Instant::elapsed ](t: &std::time::Instant) -> (d:
    std::time::Duration)
;

/// `Duration::as_millis`: the whole milliseconds in a duration. Nothing is
/// assumed of the value.
pub assume_specification[ std::time::Duration::as_millis ](d: &std::time::Duration) -> (ms: u128)
;

/// `Duration::from_millis`: the duration of that many milliseconds. Nothing is
/// assumed of the value.
pub assume_specification[ std::time::Duration::from_millis ](millis: u64) -> (d:
    std::time::Duration)
;

/// `uuid::Uuid`, a 128-bit identifier, carried around opaquely.
#[verifier::external_type_specification]
#[verifier::external_body]
pub struct ExUuid(uuid::Uuid);

/// `Uuid::new_v4`: a random identifier. Nothing is assumed of the value. The
/// outside function panics where the operating system gives no randomness.
pub assume_specification[ uuid::Uuid::new_v4 ]() -> (id: uuid::Uuid)
;

/// The number that an identifier stands for: its sixteen bytes read as one
/// big-endian integer.
pub uninterp spec fn uuid_number(id: uuid::Uuid) -> u128;

/// `Uuid::as_u128`: the identifier as a number. The number depends on the
/// identifier and on nothing else; which number it is, is not said here.
pub assume_specification[ uuid::Uuid::as_u128 ](id: &uuid::Uuid) -> (n: u128)
    ensures
        n == uuid_number(*id),
;

/// `fastrand::u64` on the range `0..bound`: some number below the bound. The
/// outside function panics on an empty range, which the precondition excludes.
#[verifier::external_body]
pub(crate) fn random_below(bound: u64) -> (r: u64)
    requires
        bound > 0,
    ensures
        r < bound,
{
    fastrand::u64(0..bound)
}

/// `chrono::Utc::now` read through `timestamp_millis`: the wall clock, in
/// milliseconds since the Unix epoch. Nothing is assumed of the value. The
/// outside function panics where the system clock is set before the epoch.
#[verifier::external_body]
pub(crate) fn wall_clock_millis() -> (ms: i64) {
    chrono::Utc::now().timestamp_millis()
}

/// `Display` of `uuid::Uuid`, read through `to_string`: the identifier as
/// text. Nothing is assumed of the text.
#[verifier::external_body]
pub(crate) fn uuid_to_string(id: &uuid::Uuid) -> (s: String) {
    id.to_string()
}

/// `Debug` of `std::time::Duration`, read through `format!`: the duration as
/// text. Nothing is assumed of the text.
#[verifier::external_body]
pub(crate) fn duration_debug(d: &std::time::Duration) -> (s: String) {
    format!("{:?}", d)
}

/// Whole milliseconds elapsed since `start`, saturating at `u64::MAX`.
/// Nothing is known of the time that has passed.
pub fn millis_since(start: &std::time::Instant) -> (ms: u64) {
    let d = start.elapsed();
    saturate_millis(d.as_millis())
}

/// A count of milliseconds as a `u64`, held at the largest value that fits.
pub fn saturate_millis(ms: u128) -> (r: u64)
    ensures
        r == (if ms > u64::MAX {
            u64::MAX as int
        } else {
            ms as int
        }),
{
    if ms > u64::MAX as u128 {
        u64::MAX
    } else {
        ms as u64
    }
}

} // verus!
