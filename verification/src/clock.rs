//! The clocks the service reads.
use vstd::prelude::*;

verus! {

/// `chrono::Local::now().naive_local()`: the local wall-clock time, as
/// microseconds since 1970-01-01 00:00:00 of that wall clock. Nothing is
/// known of the value: it is whatever the clock shows.
#[verifier::external_body]
pub(crate) fn local_now_micros() -> (t: i64) {
    chrono::Local::now().naive_local().and_utc().timestamp_micros()
}

/// `chrono::Utc::now().naive_utc()`: the UTC time, as microseconds since
/// 1970-01-01 00:00:00 UTC. Nothing is known of the value.
#[verifier::external_body]
pub(crate) fn utc_now_micros() -> (t: i64) {
    chrono::Utc::now().naive_utc().and_utc().timestamp_micros()
}

} // verus!
