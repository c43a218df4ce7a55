use vstd::prelude::*;

verus! {

/// The current time in microseconds since the Unix epoch.
///
/// Trusted: calls `chrono::Utc::now` and converts the reading with
/// `DateTime::timestamp_micros`. Nothing is claimed of the value: two
/// readings may differ in either direction. `Utc::now` does not return on a
/// machine whose clock stands before the epoch.
#[verifier::external_body]
pub(crate) fn now_micros() -> (t: i64) {
    chrono::Utc::now().timestamp_micros()
}

} // verus!
