//! The wall clock, read in whole seconds since the Unix epoch.
use vstd::prelude::*;

verus! {

/// Reads `chrono::Utc::now()` and returns its `timestamp()`.
/// chrono builds that value from the seconds since the epoch that the system
/// clock reports, and panics instead of returning when the clock stands
/// before the epoch or out of chrono's range; so what comes back is never
/// negative. Nothing else is claimed: the value depends on the clock.
#[verifier::external_body]
pub(crate) fn now_timestamp() -> (t: i64)
    ensures
        t >= 0,
{
    chrono::Utc::now().timestamp()
}

} // verus!
