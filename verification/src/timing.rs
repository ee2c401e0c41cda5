//! Durations and the wall clock.
//!
//! `std::time::Duration` is opaque to the verifier. Contracts speak of a
//! duration through [`duration_nanos`], the length of the duration in
//! nanoseconds.

use vstd::prelude::*;
use std::time::Duration;

verus! {

/// The length of a duration in nanoseconds.
pub uninterp spec fn duration_nanos(d: Duration) -> nat;

/// The text that the `Debug` formatting of a duration of `nanos`
/// nanoseconds produces, such as `30s` or `1.5s`.
pub uninterp spec fn duration_debug_text(nanos: nat) -> Seq<char>;

/// `Duration::from_secs` of std: a duration of `secs` whole seconds. Taken
/// from the documentation of std; not proved here.
pub assume_specification[ Duration::from_secs ](secs: u64) -> (d: Duration)
    ensures
        duration_nanos(d) == secs as nat * 1_000_000_000,
;

/// `Duration::from_millis` of std: a duration of `millis` milliseconds.
/// Taken from the documentation of std; not proved here.
pub assume_specification[ Duration::from_millis ](millis: u64) -> (d: Duration)
    ensures
        duration_nanos(d) == millis as nat * 1_000_000,
;

/// The `Debug` formatting of std for a `Duration`. The contract only names
/// the text: it is a function of the duration's length alone. Not proved
/// here.
#[verifier::external_body]
pub(crate) fn duration_debug_string(d: &Duration) -> (s: String)
    ensures
        s@ == duration_debug_text(duration_nanos(*d)),
{
    format!("{:?}", d)
}

/// `chrono::Utc::now`, read as milliseconds since the Unix epoch with
/// `DateTime::timestamp_millis`. Nothing is promised of the value: it is
/// whatever the system clock says at the moment of the call. Not proved
/// here.
#[verifier::external_body]
pub(crate) fn now_millis() -> (now: i64) {
    chrono::Utc::now().timestamp_millis()
}

} // verus!
