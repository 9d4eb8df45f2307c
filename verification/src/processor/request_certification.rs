//! Submission of a request: a user asks a chosen certifier to certify an
//! item and puts the fee in escrow.

use vstd::prelude::*;
use crate::errors::{ErrorCategory, ErrorCode};
use crate::pubkey::Pubkey;
use crate::state::authority::{CertificationAuthority, CertificationAuthorityView};
use crate::state::certification_request::{
    CertificationRequest,
    CertificationRequestView,
    RequestStatus,
};
use crate::state::certification_type::CertificationType;
use crate::state::certifier_profile::{
    load_after_event,
    CertifierProfile,
    CertifierProfileView,
    LoadEvent,
};
use crate::state::item::ItemDescription;
use crate::state::text::{byte_len, byte_length};
use crate::wallet::Wallet;

verus! {

/// The records a submission touches.
#[derive(Debug)]
pub struct RequestCertification {
    /// The user who submits, and who pays the fee.
    pub requester: Wallet,
    /// The registry.
    pub authority: CertificationAuthority,
    /// The request stored for the serial number, if there is one.
    pub request: Option<CertificationRequest>,
    /// The profile stored for the certifier the request goes to.
    pub certifier_profile: CertifierProfile,
}

/// A [`RequestCertification`] as a mathematical value.
pub struct RequestCertificationView {
    pub requester: Wallet,
    pub authority: CertificationAuthorityView,
    pub request: Option<CertificationRequestView>,
    pub certifier_profile: CertifierProfileView,
}

impl View for RequestCertification {
    type V = RequestCertificationView;

    open spec fn view(&self) -> RequestCertificationView {
        RequestCertificationView {
            requester: self.requester,
            authority: self.authority@,
            request: match self.request {
                Some(request) => Some(request@),
                None => None,
            },
            certifier_profile: self.certifier_profile@,
        }
    }
}

impl RequestCertificationView {
    /// Why the submission is refused, or `None` where it goes through.  The
    /// first reason that applies is the one reported.
    pub open spec fn rejection(self, item: ItemDescription, target_certifier: Pubkey) -> Option<
        ErrorCode,
    > {
        if self.request is Some {
            Some(ErrorCode::RequestAlreadyExists)
        } else if byte_len(item.serial_number) > CertificationRequest::MAX_SERIAL_LENGTH {
            Some(ErrorCode::SerialNumberTooLong)
        } else if byte_len(item.brand) > CertificationRequest::MAX_BRAND_LENGTH {
            Some(ErrorCode::BrandTooLong)
        } else if byte_len(item.model) > CertificationRequest::MAX_MODEL_LENGTH {
            Some(ErrorCode::ModelTooLong)
        } else if byte_len(item.metadata_uri) > CertificationRequest::MAX_URI_LENGTH {
            Some(ErrorCode::MetadataUriTooLong)
        } else if !self.authority.is_approved_certifier(target_certifier) {
            Some(ErrorCode::UnauthorizedCertifier)
        } else if !self.requester.can_pay(item.cert_type.spec_fee()) {
            Some(ErrorCode::InsufficientPayment)
        } else if !self.certifier_profile.load_fits() {
            Some(ErrorCode::ArithmeticOverflow)
        } else {
            None
        }
    }

    /// The request that the submission creates.
    pub open spec fn created_request(
        self,
        item: ItemDescription,
        target_certifier: Pubkey,
        now: i64,
    ) -> CertificationRequestView {
        CertificationRequestView {
            requester: self.requester.key,
            serial_number: item.serial_number,
            brand: item.brand,
            model: item.model,
            cert_type: item.cert_type,
            estimated_value: item.estimated_value,
            metadata_uri: item.metadata_uri,
            status: RequestStatus::Pending,
            assigned_certifier: Some(target_certifier),
            rejection_reason: Seq::empty(),
            created_at: now,
            resolved_at: 0,
            fee_paid: item.cert_type.spec_fee(),
            escrow_balance: item.cert_type.spec_fee(),
        }
    }

    /// The records after the submission.
    pub open spec fn submitted(
        self,
        item: ItemDescription,
        target_certifier: Pubkey,
        now: i64,
    ) -> RequestCertificationView {
        RequestCertificationView {
            requester: self.requester.debited(item.cert_type.spec_fee()),
            request: Some(self.created_request(item, target_certifier, now)),
            certifier_profile: self.certifier_profile.incremented(),
            ..self
        }
    }
}

/// Submits a request for the described item to `target_certifier` at time
/// `now`.
///
/// The submission is refused, and nothing changes, for the first of these
/// that applies: a request is already stored for the serial number; the
/// serial number, the brand, the model or the metadata reference is too
/// long; the certifier is not approved; the requester cannot pay the fee of
/// the class; the certifier's load would leave its range.  Otherwise the fee
/// of the class moves from the requester into the request's escrow, the
/// request is stored as pending and assigned to the certifier, and the
/// certifier carries one more open request.
pub fn handler(
    ctx: &mut RequestCertification,
    serial_number: String,
    brand: String,
    model: String,
    cert_type: CertificationType,
    estimated_value: u64,
    metadata_uri: String,
    target_certifier: Pubkey,
    now: i64,
) -> (result: Result<(), ErrorCode>)
    ensures
        ({
            let item = ItemDescription {
                serial_number: serial_number@,
                brand: brand@,
                model: model@,
                cert_type,
                estimated_value,
                metadata_uri: metadata_uri@,
            };
            match old(ctx)@.rejection(item, target_certifier) {
                Some(error) => result == Err::<(), ErrorCode>(error) && *final(ctx) == *old(ctx),
                None => result is Ok && final(ctx)@ == old(ctx)@.submitted(
                    item,
                    target_certifier,
                    now,
                ),
            }
        }),
{
    if ctx.request.is_some() {
        return Err(ErrorCode::RequestAlreadyExists);
    }
    if byte_length(&serial_number) > CertificationRequest::MAX_SERIAL_LENGTH {
        return Err(ErrorCode::SerialNumberTooLong);
    }
    if byte_length(&brand) > CertificationRequest::MAX_BRAND_LENGTH {
        return Err(ErrorCode::BrandTooLong);
    }
    if byte_length(&model) > CertificationRequest::MAX_MODEL_LENGTH {
        return Err(ErrorCode::ModelTooLong);
    }
    if byte_length(&metadata_uri) > CertificationRequest::MAX_URI_LENGTH {
        return Err(ErrorCode::MetadataUriTooLong);
    }
    if !ctx.authority.is_approved_certifier(&target_certifier) {
        return Err(ErrorCode::UnauthorizedCertifier);
    }
    let fee = cert_type.get_fee();
    let requester_lamports = match ctx.requester.lamports.checked_sub(fee) {
        Some(lamports) => lamports,
        None => {
            return Err(ErrorCode::InsufficientPayment);
        },
    };
    // The last check is also the first change; where it fails it changes
    // nothing.
    match ctx.certifier_profile.increment_load() {
        Ok(()) => {},
        Err(error) => {
            return Err(error);
        },
    }

    ctx.requester.lamports = requester_lamports;
    ctx.request = Some(
        CertificationRequest {
            requester: ctx.requester.key,
            serial_number,
            brand,
            model,
            cert_type,
            estimated_value,
            metadata_uri,
            status: RequestStatus::Pending,
            assigned_certifier: Some(target_certifier),
            rejection_reason: String::new(),
            created_at: now,
            resolved_at: 0,
            fee_paid: fee,
            escrow_balance: fee,
        },
    );

    Ok(())
}

/// A submission moves exactly the fee of the class from the requester into
/// the escrow of a pending request, assigns the request to the certifier,
/// and adds one open request to the certifier's load.
pub proof fn lemma_submission_escrows_the_fee(
    pre: RequestCertificationView,
    item: ItemDescription,
    target_certifier: Pubkey,
    now: i64,
)
    requires
        pre.rejection(item, target_certifier) is None,
    ensures
        ({
            let post = pre.submitted(item, target_certifier, now);
            let fee = item.cert_type.spec_fee();
            &&& post.request matches Some(request)
            &&& request.status is Pending
            &&& request.wf()
            &&& request.escrow_balance == fee
            &&& request.fee_paid == fee
            &&& request.requester == pre.requester.key
            &&& request.assigned_certifier == Some(target_certifier)
            &&& post.requester.lamports + fee == pre.requester.lamports
            &&& post.certifier_profile.current_load == load_after_event(
                pre.certifier_profile.current_load,
                LoadEvent::Submitted,
            )
            &&& post.certifier_profile.current_load == pre.certifier_profile.current_load + 1
            &&& post.authority == pre.authority
        }),
{
}

/// A request that is stored, pending or resolved, is never replaced: a
/// submission for its serial number is refused.
pub proof fn lemma_stored_request_is_kept(
    pre: RequestCertificationView,
    item: ItemDescription,
    target_certifier: Pubkey,
)
    requires
        pre.request is Some,
    ensures
        pre.rejection(item, target_certifier) == Some(ErrorCode::RequestAlreadyExists),
        ErrorCode::RequestAlreadyExists.spec_category() == ErrorCategory::Concurrency,
{
}

} // verus!
