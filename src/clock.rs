//! The wall clock, read through `std::time`.

use std::time::Duration;
use std::time::UNIX_EPOCH;
use vstd::prelude::*;

verus! {

/// Relies on `SystemTime::elapsed`, called on the Unix epoch: the time since
/// the epoch, or `None` where the clock reads earlier than the epoch. The
/// result depends on when it is called, so nothing more is stated of it.
#[verifier::external_body]
pub(crate) fn elapsed_since_epoch() -> (r: Option<Duration>) {
    UNIX_EPOCH.elapsed().ok()
}

/// Relies on `Duration::as_millis`: the whole milliseconds in `d`.
#[verifier::external_body]
pub(crate) fn duration_millis(d: Duration) -> (r: u128) {
    d.as_millis()
}

} // verus!
