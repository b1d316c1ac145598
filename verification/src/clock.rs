//! The clocks: the monotonic one that measures a window, and the wall clock
//! that stamps the rows.

use std::time::{Duration, Instant};
use vstd::prelude::*;

verus! {

/// `std::time::Instant`, a reading of the monotonic clock. Nothing is
/// stated of what it holds.
#[verifier::external_type_specification]
#[verifier::external_body]
pub struct ExInstant(std::time::Instant);

/// `Instant::now` reads the monotonic clock. Nothing is claimed of the
/// reading.
pub assume_specification[ Instant::now ]() -> (now: Instant);

/// `Instant::elapsed` gives the time that has passed since the reading was
/// taken. Nothing is claimed of the amount.
pub assume_specification[ Instant::elapsed ](start: &Instant) -> (elapsed: Duration);

/// `Duration::as_secs` gives the whole seconds of a duration. Nothing is
/// claimed of the number.
pub assume_specification[ Duration::as_secs ](duration: &Duration) -> (secs: u64);

/// The local time of the wall clock as text: `chrono::Local::now`, then
/// `DateTime::format` with year, month and day, a `T`, the time of day with
/// milliseconds and the offset from UTC. Nothing is claimed of the text,
/// which differs from call to call.
#[verifier::external_body]
pub(crate) fn now_iso() -> (timestamp: String) {
    chrono::Local::now().format("%FT%T%.3f%z").to_string()
}

} // verus!
