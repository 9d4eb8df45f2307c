//! Withdrawal of a certifier's approval by the administrator.

use vstd::prelude::*;
use crate::errors::ErrorCode;
use crate::pubkey::Pubkey;
use crate::state::authority::{
    lemma_without_certifier_keeps_wf,
    CertificationAuthority,
    CertificationAuthorityView,
};

verus! {

/// The records the withdrawal of an approval touches.
#[derive(Debug)]
pub struct RemoveCertifier {
    /// The caller.
    pub admin: Pubkey,
    /// The registry.
    pub authority: CertificationAuthority,
}

/// A [`RemoveCertifier`] as a mathematical value.
pub struct RemoveCertifierView {
    pub admin: Pubkey,
    pub authority: CertificationAuthorityView,
}

impl View for RemoveCertifier {
    type V = RemoveCertifierView;

    open spec fn view(&self) -> RemoveCertifierView {
        RemoveCertifierView { admin: self.admin, authority: self.authority@ }
    }
}

impl RemoveCertifierView {
    /// Why the withdrawal is refused, or `None` where it goes through.  The
    /// first reason that applies is the one reported.
    pub open spec fn rejection(self, certifier: Pubkey) -> Option<ErrorCode> {
        if self.admin != self.authority.admin {
            Some(ErrorCode::UnauthorizedCertifier)
        } else if !self.authority.is_approved_certifier(certifier) {
            Some(ErrorCode::CertifierNotFound)
        } else {
            None
        }
    }

    /// The records after the withdrawal.
    pub open spec fn removed(self, certifier: Pubkey) -> RemoveCertifierView {
        RemoveCertifierView {
            admin: self.admin,
            authority: self.authority.without_certifier(certifier),
        }
    }
}

/// Takes `certifier` off the approved list.  Its profile is not touched.
///
/// The withdrawal is refused, and nothing changes, where the caller is not
/// the administrator or, failing that, where the certifier is not on the
/// list.  Otherwise its first entry leaves the list and the others keep
/// their order.
pub fn handler(ctx: &mut RemoveCertifier, certifier: Pubkey) -> (result: Result<(), ErrorCode>)
    ensures
        match old(ctx)@.rejection(certifier) {
            Some(error) => result == Err::<(), ErrorCode>(error) && *final(ctx) == *old(ctx),
            None => result is Ok && final(ctx)@ == old(ctx)@.removed(certifier),
        },
{
    if ctx.admin != ctx.authority.admin {
        return Err(ErrorCode::UnauthorizedCertifier);
    }
    let position = match ctx.authority.position_of(&certifier) {
        Some(position) => position,
        None => {
            return Err(ErrorCode::CertifierNotFound);
        },
    };
    ctx.authority.approved_certifiers.remove(position);
    Ok(())
}

/// A withdrawal that goes through keeps the registry well formed: the
/// certifier is no longer approved, every other one is as it was, and the
/// counters are as they were.
pub proof fn lemma_removed_certifier_is_not_approved(pre: RemoveCertifierView, certifier: Pubkey)
    requires
        pre.authority.wf(),
        pre.rejection(certifier) is None,
    ensures
        ({
            let post = pre.removed(certifier);
            &&& post.authority.wf()
            &&& !post.authority.is_approved_certifier(certifier)
            &&& post.authority.approved_certifiers.len() == pre.authority.approved_certifiers.len()
                - 1
            &&& forall|other: Pubkey|
                other != certifier ==> post.authority.is_approved_certifier(other)
                    == pre.authority.is_approved_certifier(other)
            &&& post.authority.total_issued == pre.authority.total_issued
            &&& post.authority.admin == pre.authority.admin
            &&& post.authority.treasury == pre.authority.treasury
        }),
{
    lemma_without_certifier_keeps_wf(pre.authority, certifier);
}

} // verus!
