//! Limits and default durations of the certification workflow.

use vstd::prelude::*;

verus! {

/// Default number of seconds a holder waits between two actions.
pub const COOLDOWN_PERIOD: i64 = 1;

/// Default number of seconds a certificate stays locked after it is issued
/// or transferred.
pub const LOCK_PERIOD: i64 = 20;

/// Largest number of certificates one holder may own.
pub const MAX_CERTIFICATES: u8 = 4;

/// Largest number of approved certifiers.
pub const MAX_CERTIFIERS: usize = 50;

/// Largest number of earlier owners a certificate remembers.
pub const MAX_PREVIOUS_OWNERS: usize = 20;

/// Largest number of open requests a certifier is meant to carry at once.
pub const MAX_CONCURRENT_REQUESTS: u16 = 10;

/// Share of a request's fee that goes to the certifier who approves it, in
/// percent.  The rest goes to the treasury.
pub const CERTIFIER_SHARE_PERCENT: u64 = 60;

} // verus!
