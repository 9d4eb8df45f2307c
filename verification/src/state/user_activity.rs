//! What the workflow remembers of a holder: how many certificates the
//! holder owns and when the holder last acted.

use vstd::prelude::*;
use crate::errors::ErrorCode;
use crate::pubkey::Pubkey;
use crate::state::constants::MAX_CERTIFICATES;

verus! {

/// The activity of one holder.
#[derive(Clone, Copy, Debug)]
pub struct UserActivity {
    /// The holder.
    pub user: Pubkey,
    /// When the holder last issued to, bought or sold, in seconds.
    pub last_action_at: i64,
    /// How many certificates the holder owns.
    pub certificate_count: u8,
}

impl UserActivity {
    /// A holder never owns more than [`MAX_CERTIFICATES`] certificates.
    pub open spec fn wf(self) -> bool {
        self.certificate_count <= MAX_CERTIFICATES
    }

    /// Whether `cooldown_period` seconds have gone by since the last action.
    /// Where the end of the cooldown lies beyond the range of timestamps, it
    /// has not.
    pub open spec fn spec_has_cooldown_elapsed(
        self,
        current_time: i64,
        cooldown_period: i64,
    ) -> bool {
        let threshold = self.last_action_at + cooldown_period;
        i64::MIN <= threshold <= i64::MAX && current_time >= threshold
    }

    /// Whether the holder owns fewer than `max_certificates` certificates.
    pub open spec fn spec_can_receive_certificate(self, max_certificates: u8) -> bool {
        self.certificate_count < max_certificates
    }

    /// The activity after the holder acquired one more certificate at `now`.
    pub open spec fn acquired(self, now: i64) -> UserActivity
        recommends
            self.certificate_count < u8::MAX,
    {
        UserActivity {
            user: self.user,
            last_action_at: now,
            certificate_count: (self.certificate_count + 1) as u8,
        }
    }

    /// The activity after the holder gave one certificate away at `now`; a
    /// count of zero stays zero.
    pub open spec fn released(self, now: i64) -> UserActivity {
        UserActivity {
            user: self.user,
            last_action_at: now,
            certificate_count: if self.certificate_count > 0 {
                (self.certificate_count - 1) as u8
            } else {
                0
            },
        }
    }

    /// The activity of a holder who has not acted yet.
    pub open spec fn fresh(user: Pubkey) -> UserActivity {
        UserActivity { user, last_action_at: 0, certificate_count: 0 }
    }

    /// Whether `cooldown_period` seconds have gone by since the last action.
    pub fn has_cooldown_elapsed(&self, current_time: i64, cooldown_period: i64) -> (elapsed: bool)
        ensures
            elapsed == self.spec_has_cooldown_elapsed(current_time, cooldown_period),
    {
        match self.last_action_at.checked_add(cooldown_period) {
            Some(threshold) => current_time >= threshold,
            None => false,
        }
    }

    /// Whether the holder owns fewer than `max_certificates` certificates.
    pub fn can_receive_certificate(&self, max_certificates: u8) -> (can: bool)
        ensures
            can == self.spec_can_receive_certificate(max_certificates),
    {
        self.certificate_count < max_certificates
    }

    /// Records that the holder acted at `current_time`.
    pub fn update_last_action(&mut self, current_time: i64)
        ensures
            *final(self) == (UserActivity { last_action_at: current_time, ..*old(self) }),
    {
        self.last_action_at = current_time;
    }

    /// Counts one more certificate.  Fails, and changes nothing, where the
    /// counter is at the top of its range.
    pub fn increment_certificate_count(&mut self) -> (result: Result<(), ErrorCode>)
        ensures
            old(self).certificate_count < u8::MAX ==> result is Ok && *final(self) == (
            UserActivity {
                certificate_count: (old(self).certificate_count + 1) as u8,
                ..*old(self)
            }),
            old(self).certificate_count == u8::MAX ==> result == Err::<(), ErrorCode>(
                ErrorCode::ArithmeticOverflow,
            ) && *final(self) == *old(self),
    {
        match self.certificate_count.checked_add(1) {
            Some(count) => {
                self.certificate_count = count;
                Ok(())
            },
            None => Err(ErrorCode::ArithmeticOverflow),
        }
    }

    /// Counts one certificate less; a count of zero stays zero.  Always
    /// succeeds.
    pub fn decrement_certificate_count(&mut self) -> (result: Result<(), ErrorCode>)
        ensures
            result is Ok,
            *final(self) == (UserActivity {
                certificate_count: if old(self).certificate_count > 0 {
                    (old(self).certificate_count - 1) as u8
                } else {
                    0
                },
                ..*old(self)
            }),
    {
        if self.certificate_count > 0 {
            self.certificate_count = self.certificate_count - 1;
        }
        Ok(())
    }
}

/// What happens to a holder's count of certificates.
pub enum HoldingEvent {
    /// The holder is to receive a certificate at the given time: by an
    /// approval, a direct issuance or a transfer.
    Acquire(i64),
    /// The holder gives a certificate away at the given time.
    Release(i64),
}

/// The activity after one event.  An acquisition by a holder who already
/// owns [`MAX_CERTIFICATES`] certificates or more is refused and changes
/// nothing.
pub open spec fn activity_after_event(activity: UserActivity, event: HoldingEvent) -> UserActivity {
    match event {
        HoldingEvent::Acquire(now) => if activity.spec_can_receive_certificate(MAX_CERTIFICATES) {
            activity.acquired(now)
        } else {
            activity
        },
        HoldingEvent::Release(now) => activity.released(now),
    }
}

/// The activity after a run of events, oldest first.
pub open spec fn activity_after(activity: UserActivity, events: Seq<HoldingEvent>) -> UserActivity
    decreases events.len(),
{
    if events.len() == 0 {
        activity
    } else {
        activity_after_event(activity_after(activity, events.drop_last()), events.last())
    }
}

/// Whatever acquisitions and releases follow one another, a holder who
/// starts with at most [`MAX_CERTIFICATES`] certificates never owns more.
pub proof fn lemma_holdings_never_exceed_cap(activity: UserActivity, events: Seq<HoldingEvent>)
    requires
        activity.wf(),
    ensures
        activity_after(activity, events).wf(),
        activity_after(activity, events).certificate_count <= 4,
        activity_after(activity, events).user == activity.user,
    decreases events.len(),
{
    if events.len() > 0 {
        lemma_holdings_never_exceed_cap(activity, events.drop_last());
    }
}

/// A holder who has not acted yet owns nothing, which is within the cap.
pub proof fn lemma_fresh_activity_is_wf(user: Pubkey)
    ensures
        UserActivity::fresh(user).wf(),
        UserActivity::fresh(user).certificate_count == 0,
{
}

} // verus!
