//! Fixed tolerance policy for certificate verification.
//!
//! Both values are process-wide constants, never caller-overridable: they
//! encode a security policy coupled to the issuing key-management system's
//! lifetime guarantees and may only change in lockstep with that system.

use vstd::prelude::*;

verus! {

/// A span of time, counted in whole seconds.
///
/// Certificate tolerances are expressed and compared at second granularity,
/// so a second count is all the verification logic ever reads of a duration.
#[derive(Clone, Copy, PartialEq, Eq, Structural, Debug)]
pub struct Duration {
    pub seconds: u64,
}

impl Duration {
    /// Builds a duration from a number of whole seconds.
    pub fn from_seconds(seconds: u64) -> (d: Duration)
        ensures
            d.seconds == seconds,
    {
        Duration { seconds }
    }
}

/// Acceptable time period before a certificate's validity starts and after it
/// ends, so that devices with skewed clocks can still validate certificates:
/// 26 hours.
pub const ALLOWED_CLOCK_SKEW_SECONDS: u64 = 26 * 60 * 60;

/// Maximum accepted certificate validity span: 216 days, matching the longest
/// lifetime the issuing key-management system gives a public keyset. A
/// certificate claiming a longer validity is rejected even if otherwise well
/// formed.
pub const VALIDITY_LIMIT_SECONDS: u64 = 216 * 24 * 60 * 60;

/// The allowed clock skew as a duration.
pub fn allowed_clock_skew() -> (d: Duration)
    ensures
        d.seconds == ALLOWED_CLOCK_SKEW_SECONDS,
{
    Duration::from_seconds(ALLOWED_CLOCK_SKEW_SECONDS)
}

/// The validity limit as a duration.
pub fn validity_limit() -> (d: Duration)
    ensures
        d.seconds == VALIDITY_LIMIT_SECONDS,
{
    Duration::from_seconds(VALIDITY_LIMIT_SECONDS)
}

} // verus!
