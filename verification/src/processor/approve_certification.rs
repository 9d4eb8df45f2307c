//! Approval of a request: the assigned certifier certifies the item, the
//! certificate is issued to the requester, and the escrowed fee is shared
//! between the certifier and the treasury.

use vstd::prelude::*;
use crate::errors::{ErrorCategory, ErrorCode};
use crate::state::authority::{
    lemma_counted_keeps_wf,
    CertificationAuthority,
    CertificationAuthorityView,
};
use crate::state::certificate::{Certificate, CertificateView};
use crate::state::certification_request::{
    CertificationRequest,
    CertificationRequestView,
    RequestStatus,
};
use crate::state::certifier_profile::{
    load_after_event,
    CertifierProfile,
    CertifierProfileView,
    LoadEvent,
};
use crate::state::constants::MAX_CERTIFICATES;
use crate::state::fees::{certifier_share, lemma_shares_add_up, split_fee, treasury_share};
use crate::state::timers::TimerConfig;
use crate::state::user_activity::{activity_after_event, HoldingEvent, UserActivity};
use crate::wallet::Wallet;

verus! {

/// The records an approval touches.
#[derive(Debug)]
pub struct ApproveCertification {
    /// The certifier who approves, and who receives the certifier's share.
    pub certifier: Wallet,
    /// The registry.
    pub authority: CertificationAuthority,
    /// The request to approve.
    pub request: CertificationRequest,
    /// The certificate stored for the request's serial number, if one was
    /// issued already.
    pub certificate: Option<Certificate>,
    /// The activity stored for the requester, if the requester has acted
    /// before.
    pub owner_activity: Option<UserActivity>,
    /// The account that receives the platform's share.
    pub treasury: Wallet,
    /// The profile stored for the approving certifier.
    pub certifier_profile: CertifierProfile,
}

/// An [`ApproveCertification`] as a mathematical value.
pub struct ApproveCertificationView {
    pub certifier: Wallet,
    pub authority: CertificationAuthorityView,
    pub request: CertificationRequestView,
    pub certificate: Option<CertificateView>,
    pub owner_activity: Option<UserActivity>,
    pub treasury: Wallet,
    pub certifier_profile: CertifierProfileView,
}

impl View for ApproveCertification {
    type V = ApproveCertificationView;

    open spec fn view(&self) -> ApproveCertificationView {
        ApproveCertificationView {
            certifier: self.certifier,
            authority: self.authority@,
            request: self.request@,
            certificate: match self.certificate {
                Some(certificate) => Some(certificate@),
                None => None,
            },
            owner_activity: self.owner_activity,
            treasury: self.treasury,
            certifier_profile: self.certifier_profile@,
        }
    }
}

impl ApproveCertificationView {
    /// How many certificates the requester owns.
    pub open spec fn holdings(self) -> u8 {
        match self.owner_activity {
            Some(activity) => activity.certificate_count,
            None => 0,
        }
    }

    /// Seconds between the request's creation and `now`.
    pub open spec fn processing_time(self, now: i64) -> int {
        now - self.request.created_at
    }

    /// Whether every counter, balance and timestamp that the approval
    /// writes stays in its range.
    pub open spec fn arithmetic_fits(self, now: i64, lock_period: i64) -> bool {
        &&& now + lock_period <= i64::MAX
        &&& now >= self.request.created_at
        &&& self.certifier.can_receive(certifier_share(self.request.fee_paid))
        &&& self.treasury.can_receive(treasury_share(self.request.fee_paid))
        &&& self.authority.counter_fits(self.request.cert_type)
        &&& self.certifier_profile.resolution_fits(self.processing_time(now) as u64)
    }

    /// Why the approval is refused, or `None` where it goes through.  The
    /// first reason that applies is the one reported.
    pub open spec fn rejection(self, now: i64, lock_period: i64) -> Option<ErrorCode> {
        if !(self.request.status is Pending) {
            Some(ErrorCode::RequestNotPending)
        } else if self.request.assigned_certifier is Some
            && self.request.assigned_certifier != Some(self.certifier.key) {
            Some(ErrorCode::NotAssignedCertifier)
        } else if !self.authority.is_approved_certifier(self.certifier.key) {
            Some(ErrorCode::UnauthorizedCertifier)
        } else if self.treasury.key != self.authority.treasury {
            Some(ErrorCode::UnauthorizedCertifier)
        } else if self.holdings() >= MAX_CERTIFICATES {
            Some(ErrorCode::MaxCertificatesReached)
        } else if self.certificate is Some {
            Some(ErrorCode::SerialNumberAlreadyExists)
        } else if self.request.escrow_balance != self.request.fee_paid {
            Some(ErrorCode::InsufficientPayment)
        } else if !self.arithmetic_fits(now, lock_period) {
            Some(ErrorCode::ArithmeticOverflow)
        } else {
            None
        }
    }

    /// The certificate that the approval issues.
    pub open spec fn issued_certificate(self, now: i64, lock_period: i64) -> CertificateView {
        CertificateView {
            serial_number: self.request.serial_number,
            brand: self.request.brand,
            model: self.request.model,
            cert_type: self.request.cert_type,
            estimated_value: self.request.estimated_value,
            metadata_uri: self.request.metadata_uri,
            owner: self.request.requester,
            certifier: self.certifier.key,
            created_at: now,
            last_transfer_at: now,
            locked_until: (now + lock_period) as i64,
            previous_owners: Seq::empty(),
        }
    }

    /// The records after the approval.
    pub open spec fn approved(self, now: i64, lock_period: i64) -> ApproveCertificationView {
        ApproveCertificationView {
            certifier: self.certifier.credited(certifier_share(self.request.fee_paid)),
            authority: self.authority.counted(self.request.cert_type),
            request: CertificationRequestView {
                status: RequestStatus::Approved,
                assigned_certifier: Some(self.certifier.key),
                resolved_at: now,
                escrow_balance: 0,
                ..self.request
            },
            certificate: Some(self.issued_certificate(now, lock_period)),
            owner_activity: Some(
                match self.owner_activity {
                    Some(activity) => activity.acquired(now),
                    None => UserActivity::fresh(self.request.requester).acquired(now),
                },
            ),
            treasury: self.treasury.credited(treasury_share(self.request.fee_paid)),
            certifier_profile: self.certifier_profile.resolved(self.processing_time(now) as u64),
        }
    }
}

/// Approves the request of `ctx` at time `now`.
///
/// The approval is refused, and nothing changes, for the first of these
/// that applies: the request is not pending; it is assigned to another
/// certifier; the caller is not an approved certifier; the treasury is not
/// the registry's; the requester owns the largest number of certificates
/// allowed; a certificate exists for the serial number; the escrow does not
/// hold exactly the fee; a counter, a balance or a timestamp would leave its
/// range.  Otherwise the certificate is issued to the requester and locked
/// for the lock period, the escrow is emptied into the certifier's and the
/// treasury's wallets, the requester's activity, the registry's counters and
/// the certifier's profile are brought up to date, and the request is marked
/// approved.
pub fn handler(ctx: &mut ApproveCertification, timers: &TimerConfig, now: i64) -> (result: Result<
    (),
    ErrorCode,
>)
    ensures
        match old(ctx)@.rejection(now, timers.spec_lock_period()) {
            Some(error) => result == Err::<(), ErrorCode>(error) && *final(ctx) == *old(ctx),
            None => result is Ok && final(ctx)@ == old(ctx)@.approved(
                now,
                timers.spec_lock_period(),
            ),
        },
{
    if ctx.request.status != RequestStatus::Pending {
        return Err(ErrorCode::RequestNotPending);
    }
    match ctx.request.assigned_certifier {
        Some(assigned) => {
            if assigned != ctx.certifier.key {
                return Err(ErrorCode::NotAssignedCertifier);
            }
        },
        None => {},
    }
    if !ctx.authority.is_approved_certifier(&ctx.certifier.key) {
        return Err(ErrorCode::UnauthorizedCertifier);
    }
    if ctx.treasury.key != ctx.authority.treasury {
        return Err(ErrorCode::UnauthorizedCertifier);
    }
    let owner_activity = match ctx.owner_activity {
        Some(activity) => activity,
        None => UserActivity {
            user: ctx.request.requester,
            last_action_at: 0,
            certificate_count: 0,
        },
    };
    if !owner_activity.can_receive_certificate(MAX_CERTIFICATES) {
        return Err(ErrorCode::MaxCertificatesReached);
    }
    if ctx.certificate.is_some() {
        return Err(ErrorCode::SerialNumberAlreadyExists);
    }
    if ctx.request.escrow_balance != ctx.request.fee_paid {
        return Err(ErrorCode::InsufficientPayment);
    }
    let locked_until = match now.checked_add(timers.lock_period()) {
        Some(locked_until) => locked_until,
        None => {
            return Err(ErrorCode::ArithmeticOverflow);
        },
    };
    if now < ctx.request.created_at {
        return Err(ErrorCode::ArithmeticOverflow);
    }
    let processing_time: u64 = (now as i128 - ctx.request.created_at as i128) as u64;
    let (certifier_part, treasury_part) = split_fee(ctx.request.fee_paid);
    let certifier_lamports = match ctx.certifier.lamports.checked_add(certifier_part) {
        Some(lamports) => lamports,
        None => {
            return Err(ErrorCode::ArithmeticOverflow);
        },
    };
    let treasury_lamports = match ctx.treasury.lamports.checked_add(treasury_part) {
        Some(lamports) => lamports,
        None => {
            return Err(ErrorCode::ArithmeticOverflow);
        },
    };
    let cert_type = ctx.request.cert_type;
    if ctx.authority.total_issued == u64::MAX || ctx.authority.count_of(&cert_type) == u64::MAX {
        return Err(ErrorCode::ArithmeticOverflow);
    }
    if ctx.certifier_profile.total_processed == u64::MAX
        || ctx.certifier_profile.total_processing_time > u64::MAX - processing_time {
        return Err(ErrorCode::ArithmeticOverflow);
    }
    // Every check has passed: the changes are applied together.

    ctx.certifier.lamports = certifier_lamports;
    ctx.treasury.lamports = treasury_lamports;
    ctx.request.escrow_balance = 0;

    ctx.certificate = Some(
        Certificate {
            serial_number: ctx.request.serial_number.clone(),
            brand: ctx.request.brand.clone(),
            model: ctx.request.model.clone(),
            cert_type,
            estimated_value: ctx.request.estimated_value,
            metadata_uri: ctx.request.metadata_uri.clone(),
            owner: ctx.request.requester,
            certifier: ctx.certifier.key,
            created_at: now,
            last_transfer_at: now,
            locked_until,
            previous_owners: Vec::new(),
        },
    );

    ctx.owner_activity = Some(
        UserActivity {
            user: owner_activity.user,
            last_action_at: now,
            certificate_count: owner_activity.certificate_count + 1,
        },
    );

    // Neither call can fail: the counters were found to have room above.
    let _ = ctx.authority.increment_counter(&cert_type);
    let _ = ctx.certifier_profile.resolve_request(processing_time);

    ctx.request.status = RequestStatus::Approved;
    ctx.request.assigned_certifier = Some(ctx.certifier.key);
    ctx.request.resolved_at = now;

    Ok(())
}

/// An approval hands out the whole fee and nothing else: the two shares add
/// up to the fee that was paid, each wallet grows by its share, and the
/// escrow is left empty.
pub proof fn lemma_approval_disburses_the_fee(
    pre: ApproveCertificationView,
    now: i64,
    lock_period: i64,
)
    requires
        pre.rejection(now, lock_period) is None,
    ensures
        ({
            let post = pre.approved(now, lock_period);
            let fee = pre.request.fee_paid;
            &&& certifier_share(fee) + treasury_share(fee) == fee
            &&& post.request.escrow_balance == 0
            &&& post.request.fee_paid == fee
            &&& post.certifier.lamports == pre.certifier.lamports + certifier_share(fee)
            &&& post.treasury.lamports == pre.treasury.lamports + treasury_share(fee)
            &&& post.certifier.lamports + post.treasury.lamports + post.request.escrow_balance
                == pre.certifier.lamports + pre.treasury.lamports + pre.request.escrow_balance
        }),
{
    lemma_shares_add_up(pre.request.fee_paid);
}

/// A request that was approved or rejected cannot be approved: the attempt
/// is refused as made in the wrong state, whatever else holds.
pub proof fn lemma_resolved_request_is_not_approved(
    pre: ApproveCertificationView,
    now: i64,
    lock_period: i64,
)
    requires
        pre.request.is_resolved(),
    ensures
        pre.rejection(now, lock_period) == Some(ErrorCode::RequestNotPending),
        ErrorCode::RequestNotPending.spec_category() == ErrorCategory::State,
{
}

/// An approval is refused for a requester who already owns
/// [`MAX_CERTIFICATES`] certificates, whoever approves a pending request of
/// theirs with the registry's treasury.
pub proof fn lemma_full_holder_is_not_approved(
    pre: ApproveCertificationView,
    now: i64,
    lock_period: i64,
)
    requires
        pre.request.status is Pending,
        pre.request.assigned_certifier == Some(pre.certifier.key),
        pre.authority.is_approved_certifier(pre.certifier.key),
        pre.treasury.key == pre.authority.treasury,
        pre.holdings() >= MAX_CERTIFICATES,
    ensures
        pre.rejection(now, lock_period) == Some(ErrorCode::MaxCertificatesReached),
{
}

/// An approval leaves every record well formed: the request is approved
/// and holds nothing, the certificate belongs to the requester and is
/// locked for the lock period, the requester owns one certificate more and
/// at most [`MAX_CERTIFICATES`], the registry counts one more certificate in
/// the total and in the request's class, and the certifier carries one open
/// request less, never fewer than none.
pub proof fn lemma_approval_keeps_records_wf(
    pre: ApproveCertificationView,
    now: i64,
    lock_period: i64,
)
    requires
        pre.authority.wf(),
        0 <= lock_period,
        pre.rejection(now, lock_period) is None,
    ensures
        ({
            let post = pre.approved(now, lock_period);
            &&& post.request.wf()
            &&& post.request.status is Approved
            &&& post.request.assigned_certifier == Some(pre.certifier.key)
            &&& post.request.resolved_at == now
            &&& post.certificate matches Some(certificate)
            &&& certificate.wf()
            &&& certificate.owner == pre.request.requester
            &&& certificate.certifier == pre.certifier.key
            &&& certificate.locked_until == now + lock_period
            &&& post.owner_activity matches Some(activity)
            &&& activity.wf()
            &&& activity.certificate_count == pre.holdings() + 1
            &&& activity.last_action_at == now
            &&& activity == activity_after_event(
                match pre.owner_activity {
                    Some(before) => before,
                    None => UserActivity::fresh(pre.request.requester),
                },
                HoldingEvent::Acquire(now),
            )
            &&& post.authority.wf()
            &&& post.authority.total_issued == pre.authority.total_issued + 1
            &&& post.authority.count_of(pre.request.cert_type) == pre.authority.count_of(
                pre.request.cert_type,
            ) + 1
            &&& post.authority.approved_certifiers == pre.authority.approved_certifiers
            &&& post.certifier_profile.current_load == load_after_event(
                pre.certifier_profile.current_load,
                LoadEvent::Resolved,
            )
            &&& post.certifier_profile.total_processed == pre.certifier_profile.total_processed
                + 1
        }),
{
    lemma_counted_keeps_wf(pre.authority, pre.request.cert_type);
}

} // verus!
