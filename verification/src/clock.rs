use vstd::prelude::*;

verus! {

/// Calls `chrono::Utc::now` and takes the instant's `timestamp`: seconds since
/// the Unix epoch. Nothing is claimed of the value.
#[verifier::external_body]
pub(crate) fn unix_now() -> i64 {
    chrono::Utc::now().timestamp()
}

} // verus!
