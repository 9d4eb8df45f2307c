//! Transfer of a certificate from its owner to a new owner.

use vstd::prelude::*;
use crate::errors::ErrorCode;
use crate::pubkey::Pubkey;
use crate::state::certificate::{Certificate, CertificateView};
use crate::state::constants::MAX_CERTIFICATES;
use crate::state::timers::TimerConfig;
use crate::state::user_activity::{activity_after_event, HoldingEvent, UserActivity};

verus! {

/// The records a transfer touches.
#[derive(Debug)]
pub struct TransferCertificate {
    /// The caller, who gives the certificate away.
    pub from: Pubkey,
    /// Who receives the certificate.
    pub to: Pubkey,
    /// The certificate.
    pub certificate: Certificate,
    /// The activity stored for the caller.
    pub from_activity: UserActivity,
    /// The activity stored for the receiver, if the receiver has acted
    /// before.
    pub to_activity: Option<UserActivity>,
}

/// A [`TransferCertificate`] as a mathematical value.
pub struct TransferCertificateView {
    pub from: Pubkey,
    pub to: Pubkey,
    pub certificate: CertificateView,
    pub from_activity: UserActivity,
    pub to_activity: Option<UserActivity>,
}

impl View for TransferCertificate {
    type V = TransferCertificateView;

    open spec fn view(&self) -> TransferCertificateView {
        TransferCertificateView {
            from: self.from,
            to: self.to,
            certificate: self.certificate@,
            from_activity: self.from_activity,
            to_activity: self.to_activity,
        }
    }
}

impl TransferCertificateView {
    /// Whether the seller's cooldown has gone by.
    pub open spec fn seller_cooldown_elapsed(self, now: i64, cooldown_period: i64) -> bool {
        self.from_activity.spec_has_cooldown_elapsed(now, cooldown_period)
    }

    /// Whether the buyer's cooldown has gone by.  A buyer who has not acted
    /// before has none.
    pub open spec fn buyer_cooldown_elapsed(self, now: i64, cooldown_period: i64) -> bool {
        match self.to_activity {
            Some(activity) => activity.spec_has_cooldown_elapsed(now, cooldown_period),
            None => true,
        }
    }

    /// How many certificates the buyer holds.
    pub open spec fn buyer_holdings(self) -> u8 {
        match self.to_activity {
            Some(activity) => activity.certificate_count,
            None => 0,
        }
    }

    /// Why the transfer is refused, or `None` where it goes through.  The
    /// first reason that applies is the one reported.
    pub open spec fn rejection(self, now: i64, cooldown_period: i64, lock_period: i64) -> Option<
        ErrorCode,
    > {
        if !self.certificate.is_owner(self.from) {
            Some(ErrorCode::NotOwner)
        } else if self.certificate.is_locked(now) {
            Some(ErrorCode::CertificateLocked)
        } else if !self.seller_cooldown_elapsed(now, cooldown_period) {
            Some(ErrorCode::CooldownNotElapsed)
        } else if !self.buyer_cooldown_elapsed(now, cooldown_period) {
            Some(ErrorCode::CooldownNotElapsed)
        } else if self.buyer_holdings() >= MAX_CERTIFICATES {
            Some(ErrorCode::MaxCertificatesReached)
        } else if now + lock_period > i64::MAX {
            Some(ErrorCode::ArithmeticOverflow)
        } else {
            None
        }
    }

    /// The records after the transfer.
    pub open spec fn transferred(self, now: i64, lock_period: i64) -> TransferCertificateView {
        TransferCertificateView {
            from: self.from,
            to: self.to,
            certificate: CertificateView {
                owner: self.to,
                last_transfer_at: now,
                locked_until: (now + lock_period) as i64,
                previous_owners: self.certificate.history_with(self.certificate.owner),
                ..self.certificate
            },
            from_activity: self.from_activity.released(now),
            to_activity: Some(
                match self.to_activity {
                    Some(activity) => activity.acquired(now),
                    None => UserActivity::fresh(self.to).acquired(now),
                },
            ),
        }
    }
}

/// Transfers the certificate of `ctx` from the caller to the receiver, at
/// time `now`.
///
/// The transfer is refused, and nothing changes, for the first of these
/// that applies: the caller does not own the certificate; the certificate is
/// still locked; the caller acted less than the cooldown ago; the receiver
/// has acted before and less than the cooldown ago; the receiver holds the
/// largest number of certificates allowed; the end of the new lock would
/// leave the range of timestamps.  Otherwise the caller joins the history of
/// earlier owners, unless it is full, the receiver becomes the owner, the
/// certificate is locked for the lock period from `now`, the caller holds
/// one certificate less, never fewer than none, the receiver one more, and
/// both have acted at `now`.
///
/// The caller and the receiver are treated as two holders.  Where they are
/// the same key, `from_activity` and `to_activity` are two images of one
/// stored record, and each is brought up to date on its own.
pub fn handler(ctx: &mut TransferCertificate, timers: &TimerConfig, now: i64) -> (result: Result<
    (),
    ErrorCode,
>)
    ensures
        match old(ctx)@.rejection(now, timers.spec_cooldown_period(), timers.spec_lock_period()) {
            Some(error) => result == Err::<(), ErrorCode>(error) && *final(ctx) == *old(ctx),
            None => result is Ok && final(ctx)@ == old(ctx)@.transferred(
                now,
                timers.spec_lock_period(),
            ),
        },
{
    if !ctx.certificate.is_owner(&ctx.from) {
        return Err(ErrorCode::NotOwner);
    }
    if ctx.certificate.is_locked(now) {
        return Err(ErrorCode::CertificateLocked);
    }
    let cooldown_period = timers.cooldown_period();
    if !ctx.from_activity.has_cooldown_elapsed(now, cooldown_period) {
        return Err(ErrorCode::CooldownNotElapsed);
    }
    let to_activity = match ctx.to_activity {
        Some(activity) => {
            if !activity.has_cooldown_elapsed(now, cooldown_period) {
                return Err(ErrorCode::CooldownNotElapsed);
            }
            activity
        },
        None => UserActivity { user: ctx.to, last_action_at: 0, certificate_count: 0 },
    };
    if !to_activity.can_receive_certificate(MAX_CERTIFICATES) {
        return Err(ErrorCode::MaxCertificatesReached);
    }
    let locked_until = match now.checked_add(timers.lock_period()) {
        Some(locked_until) => locked_until,
        None => {
            return Err(ErrorCode::ArithmeticOverflow);
        },
    };
    // Every check has passed: the changes are applied together.

    let old_owner = ctx.certificate.owner;
    ctx.certificate.add_to_history(old_owner);
    ctx.certificate.owner = ctx.to;
    ctx.certificate.last_transfer_at = now;
    ctx.certificate.locked_until = locked_until;

    ctx.from_activity.certificate_count = ctx.from_activity.certificate_count.saturating_sub(1);
    ctx.from_activity.last_action_at = now;

    ctx.to_activity = Some(
        UserActivity {
            user: to_activity.user,
            last_action_at: now,
            certificate_count: to_activity.certificate_count + 1,
        },
    );

    Ok(())
}

/// When the caller owns the certificate and the new lock ends within the
/// range of timestamps, the transfer goes through if and only if the lock
/// has ended, the seller's cooldown has gone by, the buyer's cooldown has
/// gone by where the buyer has acted before, and the buyer holds fewer than
/// [`MAX_CERTIFICATES`] certificates; and where it does not, the reason
/// reported is that of the first of these that fails.
pub proof fn lemma_transfer_succeeds_iff(
    pre: TransferCertificateView,
    now: i64,
    cooldown_period: i64,
    lock_period: i64,
)
    requires
        pre.certificate.owner == pre.from,
        now + lock_period <= i64::MAX,
    ensures
        pre.rejection(now, cooldown_period, lock_period) is None <==> now
            >= pre.certificate.locked_until && pre.seller_cooldown_elapsed(now, cooldown_period)
            && pre.buyer_cooldown_elapsed(now, cooldown_period) && pre.buyer_holdings()
            < MAX_CERTIFICATES,
        now < pre.certificate.locked_until ==> pre.rejection(now, cooldown_period, lock_period)
            == Some(ErrorCode::CertificateLocked),
        now >= pre.certificate.locked_until && !(pre.seller_cooldown_elapsed(now, cooldown_period)
            && pre.buyer_cooldown_elapsed(now, cooldown_period)) ==> pre.rejection(
            now,
            cooldown_period,
            lock_period,
        ) == Some(ErrorCode::CooldownNotElapsed),
        now >= pre.certificate.locked_until && pre.seller_cooldown_elapsed(now, cooldown_period)
            && pre.buyer_cooldown_elapsed(now, cooldown_period) && pre.buyer_holdings()
            >= MAX_CERTIFICATES ==> pre.rejection(now, cooldown_period, lock_period) == Some(
            ErrorCode::MaxCertificatesReached,
        ),
{
}

/// A transfer keeps a well-formed certificate well formed when the lock
/// period is not negative, hands it to the receiver, and changes nothing
/// else of it but the history and the two timestamps.
pub proof fn lemma_transfer_keeps_certificate_wf(
    pre: TransferCertificateView,
    now: i64,
    cooldown_period: i64,
    lock_period: i64,
)
    requires
        pre.certificate.wf(),
        0 <= lock_period,
        pre.rejection(now, cooldown_period, lock_period) is None,
    ensures
        ({
            let post = pre.transferred(now, lock_period);
            &&& post.certificate.wf()
            &&& post.certificate.owner == pre.to
            &&& post.certificate.last_transfer_at == now
            &&& post.certificate.locked_until == now + lock_period
            &&& post.certificate.is_locked(now) == (lock_period > 0)
            &&& post.certificate.serial_number == pre.certificate.serial_number
            &&& post.certificate.certifier == pre.certificate.certifier
            &&& post.certificate.created_at == pre.certificate.created_at
            &&& pre.certificate.previous_owners.len() < Certificate::MAX_PREVIOUS_OWNERS
                ==> post.certificate.previous_owners == pre.certificate.previous_owners.push(
                pre.from,
            )
            &&& pre.certificate.previous_owners.len() >= Certificate::MAX_PREVIOUS_OWNERS
                ==> post.certificate.previous_owners == pre.certificate.previous_owners
        }),
{
}

/// After a transfer the receiver owns one certificate more and at most
/// [`MAX_CERTIFICATES`], and the caller, who owned no more than that, owns
/// one less, never fewer than none.
pub proof fn lemma_transfer_keeps_holdings_within_cap(
    pre: TransferCertificateView,
    now: i64,
    cooldown_period: i64,
    lock_period: i64,
)
    requires
        pre.from_activity.wf(),
        pre.rejection(now, cooldown_period, lock_period) is None,
    ensures
        ({
            let post = pre.transferred(now, lock_period);
            &&& post.from_activity.wf()
            &&& post.from_activity == activity_after_event(
                pre.from_activity,
                HoldingEvent::Release(now),
            )
            &&& post.from_activity.user == pre.from_activity.user
            &&& post.to_activity matches Some(activity)
            &&& activity.wf()
            &&& activity.certificate_count == pre.buyer_holdings() + 1
            &&& activity == activity_after_event(
                match pre.to_activity {
                    Some(before) => before,
                    None => UserActivity::fresh(pre.to),
                },
                HoldingEvent::Acquire(now),
            )
        }),
{
}

/// With a cooldown that is not negative, a transfer moves no holder's last
/// action back in time: both have acted at `now`, which is not before
/// either's last action.
pub proof fn lemma_transfer_moves_time_forward(
    pre: TransferCertificateView,
    now: i64,
    cooldown_period: i64,
    lock_period: i64,
)
    requires
        0 <= cooldown_period,
        pre.rejection(now, cooldown_period, lock_period) is None,
    ensures
        ({
            let post = pre.transferred(now, lock_period);
            &&& post.from_activity.last_action_at == now
            &&& now >= pre.from_activity.last_action_at
            &&& post.to_activity matches Some(activity)
            &&& activity.last_action_at == now
            &&& pre.to_activity matches Some(before) ==> now >= before.last_action_at
        }),
{
}

} // verus!
