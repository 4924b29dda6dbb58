use vstd::prelude::*;

verus! {

/// Relies on chrono's `Utc::now`, taken as a naive UTC wall-clock value in
/// microseconds since the Unix epoch — the precision the store keeps
/// timestamps at. Nothing is promised of the value: it depends on the
/// clock, so every caller states what holds whatever time comes back.
/// Chrono itself panics when the system clock reads before the Unix
/// epoch, an environmental condition no caller can exclude.
#[verifier::external_body]
pub fn now_micros() -> i64 {
    chrono::Utc::now().naive_utc().and_utc().timestamp_micros()
}

} // verus!
