//! The broker's clock: wall time as whole seconds of Unix time, read through
//! chrono.
use vstd::prelude::*;

verus! {

/// Relies on chrono's `Utc::now` for the current instant and on
/// `DateTime::timestamp` for its whole seconds since the Unix epoch. Nothing
/// is promised of a clock reading.
#[verifier::external_body]
fn now_timestamp() -> (r: i64) {
    chrono::Utc::now().timestamp()
}

/// The current Unix time in whole seconds. An instant before the epoch —
/// a clock set badly astray — is reported as the epoch itself, so that
/// callers can carry timestamps as unsigned seconds.
pub fn current_unix_time() -> (r: u64) {
    let t = now_timestamp();
    if t < 0 {
        0
    } else {
        t as u64
    }
}

} // verus!
