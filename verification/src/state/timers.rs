//! The two durations that hold transfers and issuance back.

use vstd::prelude::*;
use crate::state::constants::{COOLDOWN_PERIOD, LOCK_PERIOD};

verus! {

/// The cooldown and the lock period, in seconds.  Neither is negative.
#[derive(Clone, Copy, Debug)]
pub struct TimerConfig {
    cooldown_period: i64,
    lock_period: i64,
}

impl TimerConfig {
    #[verifier::type_invariant]
    spec fn valid(self) -> bool {
        0 <= self.cooldown_period && 0 <= self.lock_period
    }

    /// The cooldown, in seconds.
    pub closed spec fn spec_cooldown_period(self) -> i64 {
        self.cooldown_period
    }

    /// The lock period, in seconds.
    pub closed spec fn spec_lock_period(self) -> i64 {
        self.lock_period
    }

    /// The configuration with the given durations, or `None` where one of
    /// them is negative.
    pub fn new(cooldown_period: i64, lock_period: i64) -> (config: Option<TimerConfig>)
        ensures
            config is Some <==> 0 <= cooldown_period && 0 <= lock_period,
            config matches Some(c) ==> c.spec_cooldown_period() == cooldown_period
                && c.spec_lock_period() == lock_period,
    {
        if cooldown_period < 0 || lock_period < 0 {
            None
        } else {
            Some(TimerConfig { cooldown_period, lock_period })
        }
    }

    /// The cooldown, in seconds.
    pub fn cooldown_period(&self) -> (seconds: i64)
        ensures
            seconds == self.spec_cooldown_period(),
            0 <= seconds,
    {
        proof {
            use_type_invariant(self);
        }
        self.cooldown_period
    }

    /// The lock period, in seconds.
    pub fn lock_period(&self) -> (seconds: i64)
        ensures
            seconds == self.spec_lock_period(),
            0 <= seconds,
    {
        proof {
            use_type_invariant(self);
        }
        self.lock_period
    }
}

impl Default for TimerConfig {
    /// The default durations, [`COOLDOWN_PERIOD`] and [`LOCK_PERIOD`].
    fn default() -> (config: TimerConfig)
        ensures
            config.spec_cooldown_period() == COOLDOWN_PERIOD,
            config.spec_lock_period() == LOCK_PERIOD,
    {
        TimerConfig { cooldown_period: COOLDOWN_PERIOD, lock_period: LOCK_PERIOD }
    }
}

} // verus!
