//! Approval of a certifier by the administrator.

use vstd::prelude::*;
use crate::errors::ErrorCode;
use crate::pubkey::Pubkey;
use crate::state::authority::{
    lemma_with_certifier_keeps_wf,
    CertificationAuthority,
    CertificationAuthorityView,
};
use crate::state::certifier_profile::{CertifierProfile, CertifierProfileView};
use crate::state::text::{byte_len, byte_length};

verus! {

/// The records the approval of a certifier touches.
#[derive(Debug)]
pub struct AddCertifier {
    /// The caller.
    pub admin: Pubkey,
    /// The registry.
    pub authority: CertificationAuthority,
    /// The profile stored for the certifier, if there is one.
    pub certifier_profile: Option<CertifierProfile>,
}

/// An [`AddCertifier`] as a mathematical value.
pub struct AddCertifierView {
    pub admin: Pubkey,
    pub authority: CertificationAuthorityView,
    pub certifier_profile: Option<CertifierProfileView>,
}

impl View for AddCertifier {
    type V = AddCertifierView;

    open spec fn view(&self) -> AddCertifierView {
        AddCertifierView {
            admin: self.admin,
            authority: self.authority@,
            certifier_profile: match self.certifier_profile {
                Some(profile) => Some(profile@),
                None => None,
            },
        }
    }
}

impl AddCertifierView {
    /// Why the approval is refused, or `None` where it goes through.  The
    /// first reason that applies is the one reported.
    pub open spec fn rejection(
        self,
        certifier: Pubkey,
        display_name: Seq<char>,
        physical_address: Seq<char>,
    ) -> Option<ErrorCode> {
        if self.admin != self.authority.admin {
            Some(ErrorCode::UnauthorizedCertifier)
        } else if byte_len(display_name) > CertifierProfile::MAX_NAME_LENGTH {
            Some(ErrorCode::DisplayNameTooLong)
        } else if byte_len(physical_address) > CertifierProfile::MAX_ADDRESS_LENGTH {
            Some(ErrorCode::PhysicalAddressTooLong)
        } else if self.authority.is_approved_certifier(certifier) {
            Some(ErrorCode::CertifierAlreadyExists)
        } else if self.authority.approved_certifiers.len()
            >= CertificationAuthority::MAX_CERTIFIERS {
            Some(ErrorCode::MaxCertifiersReached)
        } else {
            None
        }
    }

    /// The profile that a newly approved certifier starts with: no load,
    /// nothing processed, active.
    pub open spec fn new_profile(
        certifier: Pubkey,
        display_name: Seq<char>,
        physical_address: Seq<char>,
        now: i64,
    ) -> CertifierProfileView {
        CertifierProfileView {
            certifier,
            current_load: 0,
            total_processed: 0,
            total_processing_time: 0,
            physical_address,
            display_name,
            is_active: true,
            registered_at: now,
        }
    }

    /// The records after the approval.
    pub open spec fn added(
        self,
        certifier: Pubkey,
        display_name: Seq<char>,
        physical_address: Seq<char>,
        now: i64,
    ) -> AddCertifierView {
        AddCertifierView {
            admin: self.admin,
            authority: self.authority.with_certifier(certifier),
            certifier_profile: Some(
                Self::new_profile(certifier, display_name, physical_address, now),
            ),
        }
    }
}

/// Approves `certifier` at time `now` and gives it a new profile.
///
/// The approval is refused, and nothing changes, for the first of these
/// that applies: the caller is not the administrator; the display name or
/// the postal address is too long; the certifier is approved already; the
/// list is full.  Otherwise the certifier joins the end of the approved
/// list, and its profile is created active, with no open request and nothing
/// processed.
pub fn handler(
    ctx: &mut AddCertifier,
    certifier: Pubkey,
    display_name: String,
    physical_address: String,
    now: i64,
) -> (result: Result<(), ErrorCode>)
    ensures
        match old(ctx)@.rejection(certifier, display_name@, physical_address@) {
            Some(error) => result == Err::<(), ErrorCode>(error) && *final(ctx) == *old(ctx),
            None => result is Ok && final(ctx)@ == old(ctx)@.added(
                certifier,
                display_name@,
                physical_address@,
                now,
            ),
        },
{
    if ctx.admin != ctx.authority.admin {
        return Err(ErrorCode::UnauthorizedCertifier);
    }
    if byte_length(&display_name) > CertifierProfile::MAX_NAME_LENGTH {
        return Err(ErrorCode::DisplayNameTooLong);
    }
    if byte_length(&physical_address) > CertifierProfile::MAX_ADDRESS_LENGTH {
        return Err(ErrorCode::PhysicalAddressTooLong);
    }
    if ctx.authority.is_approved_certifier(&certifier) {
        return Err(ErrorCode::CertifierAlreadyExists);
    }
    if ctx.authority.approved_certifiers.len() >= CertificationAuthority::MAX_CERTIFIERS {
        return Err(ErrorCode::MaxCertifiersReached);
    }
    ctx.authority.approved_certifiers.push(certifier);
    ctx.certifier_profile = Some(
        CertifierProfile {
            certifier,
            current_load: 0,
            total_processed: 0,
            total_processing_time: 0,
            physical_address,
            display_name,
            is_active: true,
            registered_at: now,
        },
    );
    Ok(())
}

/// An approval that goes through keeps the registry well formed: the
/// certifier is approved, those approved before still are, the list holds
/// one entry more and no certifier twice, the counters are as they were, and
/// the certifier's profile is new.
pub proof fn lemma_added_certifier_is_approved(
    pre: AddCertifierView,
    certifier: Pubkey,
    display_name: Seq<char>,
    physical_address: Seq<char>,
    now: i64,
)
    requires
        pre.authority.wf(),
        pre.rejection(certifier, display_name, physical_address) is None,
    ensures
        ({
            let post = pre.added(certifier, display_name, physical_address, now);
            &&& post.authority.wf()
            &&& post.authority.is_approved_certifier(certifier)
            &&& post.authority.approved_certifiers.len() == pre.authority.approved_certifiers.len()
                + 1
            &&& forall|other: Pubkey|
                pre.authority.is_approved_certifier(other)
                    ==> post.authority.is_approved_certifier(other)
            &&& post.authority.total_issued == pre.authority.total_issued
            &&& post.authority.admin == pre.authority.admin
            &&& post.authority.treasury == pre.authority.treasury
            &&& post.certifier_profile matches Some(profile)
            &&& profile.certifier == certifier
            &&& profile.current_load == 0
            &&& profile.total_processed == 0
            &&& profile.is_active
            &&& profile.registered_at == now
        }),
{
    lemma_with_certifier_keeps_wf(pre.authority, certifier);
}

} // verus!
