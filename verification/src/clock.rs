//! The wall clock, read through `chrono`.
use vstd::prelude::*;

verus! {

/// Formats `chrono::Local::now()` with `%Y%m%d%H%M%S`. The result depends on
/// the time of the call, so nothing is stated of it.
#[verifier::external_body]
pub fn date_stamp() -> String {
    chrono::Local::now().format("%Y%m%d%H%M%S").to_string()
}

/// `chrono::Local::now().timestamp()`: the seconds since the Unix epoch at the
/// time of the call. Nothing is stated of the value.
#[verifier::external_body]
pub fn local_timestamp() -> i64 {
    chrono::Local::now().timestamp()
}

/// `chrono::Local::now()` written with its `Display` impl. The result depends
/// on the time of the call, so nothing is stated of it.
#[verifier::external_body]
pub fn local_datetime_string() -> String {
    chrono::Local::now().to_string()
}

} // verus!
