//! Wall-clock access for the aggregated feed's `updated` stamp.

use vstd::prelude::*;

verus! {

/// Relies on chrono's `Local::now`: the current wall-clock time as a UNIX
/// timestamp in seconds.  Nothing is assumed of the value returned.
#[verifier::external_body]
pub(crate) fn now_ts() -> i64 {
    chrono::Local::now().to_utc().timestamp()
}

} // verus!
