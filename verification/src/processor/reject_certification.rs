//! Rejection of a request: the assigned certifier turns the item down and
//! the escrowed fee goes back to the requester.

use vstd::prelude::*;
use crate::errors::{ErrorCategory, ErrorCode};
use crate::pubkey::Pubkey;
use crate::state::authority::{CertificationAuthority, CertificationAuthorityView};
use crate::state::certification_request::{
    CertificationRequest,
    CertificationRequestView,
    RequestStatus,
};
use crate::state::certifier_profile::{
    load_after_event,
    CertifierProfile,
    CertifierProfileView,
    LoadEvent,
};
use crate::state::text::{byte_len, byte_length};
use crate::wallet::Wallet;

verus! {

/// The records a rejection touches.
#[derive(Debug)]
pub struct RejectCertification {
    /// The certifier who rejects.
    pub certifier: Pubkey,
    /// The registry.
    pub authority: CertificationAuthority,
    /// The request to reject.
    pub request: CertificationRequest,
    /// The account that receives the refund.
    pub requester: Wallet,
    /// The profile stored for the rejecting certifier.
    pub certifier_profile: CertifierProfile,
}

/// A [`RejectCertification`] as a mathematical value.
pub struct RejectCertificationView {
    pub certifier: Pubkey,
    pub authority: CertificationAuthorityView,
    pub request: CertificationRequestView,
    pub requester: Wallet,
    pub certifier_profile: CertifierProfileView,
}

impl View for RejectCertification {
    type V = RejectCertificationView;

    open spec fn view(&self) -> RejectCertificationView {
        RejectCertificationView {
            certifier: self.certifier,
            authority: self.authority@,
            request: self.request@,
            requester: self.requester,
            certifier_profile: self.certifier_profile@,
        }
    }
}

impl RejectCertificationView {
    /// Seconds between the request's creation and `now`.
    pub open spec fn processing_time(self, now: i64) -> int {
        now - self.request.created_at
    }

    /// Whether every counter and balance that the rejection writes stays in
    /// its range.
    pub open spec fn arithmetic_fits(self, now: i64) -> bool {
        &&& now >= self.request.created_at
        &&& self.requester.can_receive(self.request.fee_paid)
        &&& self.certifier_profile.resolution_fits(self.processing_time(now) as u64)
    }

    /// Why the rejection is refused, or `None` where it goes through.  The
    /// first reason that applies is the one reported.
    pub open spec fn rejection(self, reason: Seq<char>, now: i64) -> Option<ErrorCode> {
        if !(self.request.status is Pending) {
            Some(ErrorCode::RequestNotPending)
        } else if self.request.assigned_certifier != Some(self.certifier) {
            Some(ErrorCode::NotAssignedCertifier)
        } else if !self.authority.is_approved_certifier(self.certifier) {
            Some(ErrorCode::UnauthorizedCertifier)
        } else if self.requester.key != self.request.requester {
            Some(ErrorCode::NotOwner)
        } else if byte_len(reason) > CertificationRequest::MAX_REJECTION_REASON {
            Some(ErrorCode::RejectionReasonTooLong)
        } else if self.request.escrow_balance != self.request.fee_paid {
            Some(ErrorCode::InsufficientPayment)
        } else if !self.arithmetic_fits(now) {
            Some(ErrorCode::ArithmeticOverflow)
        } else {
            None
        }
    }

    /// The records after the rejection.
    pub open spec fn rejected(self, reason: Seq<char>, now: i64) -> RejectCertificationView {
        RejectCertificationView {
            request: CertificationRequestView {
                status: RequestStatus::Rejected,
                rejection_reason: reason,
                resolved_at: now,
                escrow_balance: 0,
                ..self.request
            },
            requester: self.requester.credited(self.request.fee_paid),
            certifier_profile: self.certifier_profile.resolved(self.processing_time(now) as u64),
            ..self
        }
    }
}

/// Rejects the request of `ctx` at time `now`, for the given reason.
///
/// The rejection is refused, and nothing changes, for the first of these
/// that applies: the request is not pending; the caller is not the
/// certifier it is assigned to; the caller is no longer approved; the
/// account to refund is not the requester's; the reason is longer than
/// [`CertificationRequest::MAX_REJECTION_REASON`] bytes; the escrow does not
/// hold exactly the fee; a counter or a balance would leave its range.
/// Otherwise the whole fee goes back to the requester, the request is marked
/// rejected with the reason and the time, and the certifier's profile counts
/// one more resolved request.
pub fn handler(ctx: &mut RejectCertification, reason: String, now: i64) -> (result: Result<
    (),
    ErrorCode,
>)
    ensures
        match old(ctx)@.rejection(reason@, now) {
            Some(error) => result == Err::<(), ErrorCode>(error) && *final(ctx) == *old(ctx),
            None => result is Ok && final(ctx)@ == old(ctx)@.rejected(reason@, now),
        },
{
    if ctx.request.status != RequestStatus::Pending {
        return Err(ErrorCode::RequestNotPending);
    }
    match ctx.request.assigned_certifier {
        Some(assigned) => {
            if assigned != ctx.certifier {
                return Err(ErrorCode::NotAssignedCertifier);
            }
        },
        None => {
            return Err(ErrorCode::NotAssignedCertifier);
        },
    }
    if !ctx.authority.is_approved_certifier(&ctx.certifier) {
        return Err(ErrorCode::UnauthorizedCertifier);
    }
    if ctx.requester.key != ctx.request.requester {
        return Err(ErrorCode::NotOwner);
    }
    if byte_length(&reason) > CertificationRequest::MAX_REJECTION_REASON {
        return Err(ErrorCode::RejectionReasonTooLong);
    }
    if ctx.request.escrow_balance != ctx.request.fee_paid {
        return Err(ErrorCode::InsufficientPayment);
    }
    if now < ctx.request.created_at {
        return Err(ErrorCode::ArithmeticOverflow);
    }
    let processing_time: u64 = (now as i128 - ctx.request.created_at as i128) as u64;
    let requester_lamports = match ctx.requester.lamports.checked_add(ctx.request.fee_paid) {
        Some(lamports) => lamports,
        None => {
            return Err(ErrorCode::ArithmeticOverflow);
        },
    };
    // The last check is also the first change; where it fails it changes
    // nothing.
    match ctx.certifier_profile.resolve_request(processing_time) {
        Ok(()) => {},
        Err(error) => {
            return Err(error);
        },
    }

    ctx.requester.lamports = requester_lamports;
    ctx.request.escrow_balance = 0;
    ctx.request.status = RequestStatus::Rejected;
    ctx.request.rejection_reason = reason;
    ctx.request.resolved_at = now;

    Ok(())
}

/// A rejection gives the whole fee back: the requester's wallet grows by the
/// fee that was paid and the escrow is left empty.
pub proof fn lemma_rejection_refunds_the_fee(
    pre: RejectCertificationView,
    reason: Seq<char>,
    now: i64,
)
    requires
        pre.rejection(reason, now) is None,
    ensures
        ({
            let post = pre.rejected(reason, now);
            &&& post.request.escrow_balance == 0
            &&& post.request.fee_paid == pre.request.fee_paid
            &&& post.requester.lamports == pre.requester.lamports + pre.request.fee_paid
            &&& post.requester.lamports + post.request.escrow_balance == pre.requester.lamports
                + pre.request.escrow_balance
        }),
{
}

/// A request that was approved or rejected cannot be rejected: the attempt
/// is refused as made in the wrong state, whatever else holds.
pub proof fn lemma_resolved_request_is_not_rejected(
    pre: RejectCertificationView,
    reason: Seq<char>,
    now: i64,
)
    requires
        pre.request.is_resolved(),
    ensures
        pre.rejection(reason, now) == Some(ErrorCode::RequestNotPending),
        ErrorCode::RequestNotPending.spec_category() == ErrorCategory::State,
{
}

/// A rejection leaves the request well formed, rejected for the reason
/// given, the registry as it was, and the certifier with one open request
/// less, never fewer than none.
pub proof fn lemma_rejection_keeps_records_wf(
    pre: RejectCertificationView,
    reason: Seq<char>,
    now: i64,
)
    requires
        pre.rejection(reason, now) is None,
    ensures
        ({
            let post = pre.rejected(reason, now);
            &&& post.request.wf()
            &&& post.request.status is Rejected
            &&& post.request.rejection_reason == reason
            &&& post.request.resolved_at == now
            &&& post.authority == pre.authority
            &&& post.certifier_profile.current_load == load_after_event(
                pre.certifier_profile.current_load,
                LoadEvent::Resolved,
            )
            &&& post.certifier_profile.total_processed == pre.certifier_profile.total_processed
                + 1
        }),
{
}

} // verus!
