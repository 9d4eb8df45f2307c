//! Creation of the registry.

use vstd::prelude::*;
use crate::errors::ErrorCode;
use crate::pubkey::Pubkey;
use crate::state::authority::{CertificationAuthority, CertificationAuthorityView};

verus! {

/// The records the creation of the registry touches.
#[derive(Debug)]
pub struct Initialize {
    /// The caller, who becomes the administrator.
    pub admin: Pubkey,
    /// The registry, if it was created already.
    pub authority: Option<CertificationAuthority>,
    /// Where the platform's share of the fees will go.
    pub treasury: Pubkey,
}

/// An [`Initialize`] as a mathematical value.
pub struct InitializeView {
    pub admin: Pubkey,
    pub authority: Option<CertificationAuthorityView>,
    pub treasury: Pubkey,
}

impl View for Initialize {
    type V = InitializeView;

    open spec fn view(&self) -> InitializeView {
        InitializeView {
            admin: self.admin,
            authority: match self.authority {
                Some(authority) => Some(authority@),
                None => None,
            },
            treasury: self.treasury,
        }
    }
}

impl InitializeView {
    /// Why the creation is refused, or `None` where it goes through.
    pub open spec fn rejection(self) -> Option<ErrorCode> {
        if self.authority is Some {
            Some(ErrorCode::AlreadyInitialized)
        } else {
            None
        }
    }

    /// The records after the creation.
    pub open spec fn initialized(self) -> InitializeView {
        InitializeView {
            authority: Some(CertificationAuthorityView::created(self.admin, self.treasury)),
            ..self
        }
    }
}

/// Creates the registry, administered by the caller of `ctx`, with no
/// certifier and nothing issued.  Refused, with nothing changed, where the
/// registry exists already.
pub fn handler(ctx: &mut Initialize) -> (result: Result<(), ErrorCode>)
    ensures
        match old(ctx)@.rejection() {
            Some(error) => result == Err::<(), ErrorCode>(error) && *final(ctx) == *old(ctx),
            None => result is Ok && final(ctx)@ == old(ctx)@.initialized(),
        },
        result is Ok ==> (final(ctx)@.authority matches Some(authority) && authority.wf()),
{
    if ctx.authority.is_some() {
        return Err(ErrorCode::AlreadyInitialized);
    }
    ctx.authority = Some(
        CertificationAuthority {
            admin: ctx.admin,
            approved_certifiers: Vec::new(),
            total_issued: 0,
            standard_count: 0,
            premium_count: 0,
            luxury_count: 0,
            exceptional_count: 0,
            treasury: ctx.treasury,
        },
    );
    Ok(())
}

} // verus!
