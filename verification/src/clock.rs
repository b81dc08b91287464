use vstd::prelude::*;

verus! {

/// Reads the system clock with `std::time::SystemTime::elapsed` on the Unix epoch and gives
/// the whole seconds that have passed since, or `None` where the clock stands before the
/// epoch.
///
/// Nothing is promised of the value: two readings may differ in either direction.
#[verifier::external_body]
pub(crate) fn unix_time() -> (now: Option<u64>) {
    match std::time::UNIX_EPOCH.elapsed() {
        Ok(since) => Some(since.as_secs()),
        Err(_) => None,
    }
}

} // verus!
