//! Closing of a proposal once the voting time is over.

use vstd::prelude::*;
use crate::decentravote::instructions::vote::ErrorCode;
use crate::decentravote::state::proposal::{Proposal, ProposalView};
use crate::pubkey::Pubkey;

verus! {

/// How long voting stays open, in seconds.
pub const VOTE_DURATION: i64 = 600;

/// How a vote ended.
#[derive(Clone, Copy, Debug, PartialEq, Eq, Structural, Hash)]
pub enum VoteOutcome {
    /// More votes in favour than against.
    Approved,
    /// More votes against than in favour.
    Rejected,
    /// As many in favour as against.
    Tie,
}

/// The records the closing of a proposal touches.
#[derive(Debug)]
pub struct FinalizeProposal {
    /// The caller; anyone may close a proposal.
    pub authority: Pubkey,
    /// The proposal.
    pub proposal: Proposal,
}

/// A [`FinalizeProposal`] as a mathematical value.
pub struct FinalizeProposalView {
    pub authority: Pubkey,
    pub proposal: ProposalView,
}

impl View for FinalizeProposal {
    type V = FinalizeProposalView;

    open spec fn view(&self) -> FinalizeProposalView {
        FinalizeProposalView { authority: self.authority, proposal: self.proposal@ }
    }
}

impl FinalizeProposalView {
    /// Why the closing is refused, or `None` where it goes through.  The
    /// first reason that applies is the one reported.
    pub open spec fn rejection(self, now: i64) -> Option<ErrorCode> {
        if self.proposal.is_finalized {
            Some(ErrorCode::ProposalFinalized)
        } else if self.proposal.created_at + VOTE_DURATION > i64::MAX {
            Some(ErrorCode::Overflow)
        } else if now < self.proposal.created_at + VOTE_DURATION {
            Some(ErrorCode::TooEarly)
        } else {
            None
        }
    }

    /// How the vote ends.
    pub open spec fn outcome(self) -> VoteOutcome {
        if self.proposal.approve_votes > self.proposal.reject_votes {
            VoteOutcome::Approved
        } else if self.proposal.reject_votes > self.proposal.approve_votes {
            VoteOutcome::Rejected
        } else {
            VoteOutcome::Tie
        }
    }

    /// The records after the closing.
    pub open spec fn finalized(self) -> FinalizeProposalView {
        FinalizeProposalView {
            authority: self.authority,
            proposal: ProposalView { is_finalized: true, ..self.proposal },
        }
    }
}

/// Closes the proposal of `ctx` at time `now` and says how the vote ended.
///
/// The closing is refused, and nothing changes, for the first of these that
/// applies: the proposal is closed already; the end of the voting time lies
/// beyond the range of timestamps; `now` is before that end.  Otherwise the
/// proposal is closed and its votes are left as they are.
pub fn finalize_proposal(ctx: &mut FinalizeProposal, now: i64) -> (result: Result<
    VoteOutcome,
    ErrorCode,
>)
    ensures
        match old(ctx)@.rejection(now) {
            Some(error) => result == Err::<VoteOutcome, ErrorCode>(error) && *final(ctx) == *old(
                ctx,
            ),
            None => result == Ok::<VoteOutcome, ErrorCode>(old(ctx)@.outcome()) && final(ctx)@
                == old(ctx)@.finalized(),
        },
{
    if ctx.proposal.is_finalized {
        return Err(ErrorCode::ProposalFinalized);
    }
    let end_time = match ctx.proposal.created_at.checked_add(VOTE_DURATION) {
        Some(end_time) => end_time,
        None => {
            return Err(ErrorCode::Overflow);
        },
    };
    if now < end_time {
        return Err(ErrorCode::TooEarly);
    }
    ctx.proposal.is_finalized = true;
    let outcome = if ctx.proposal.approve_votes > ctx.proposal.reject_votes {
        VoteOutcome::Approved
    } else if ctx.proposal.reject_votes > ctx.proposal.approve_votes {
        VoteOutcome::Rejected
    } else {
        VoteOutcome::Tie
    };
    Ok(outcome)
}

/// A closed proposal stays closed: it takes no vote and cannot be closed
/// again.
pub proof fn lemma_finalized_is_final(pre: FinalizeProposalView, now: i64)
    requires
        pre.rejection(now) is None,
    ensures
        pre.finalized().proposal.is_finalized,
        pre.finalized().rejection(now) == Some(ErrorCode::ProposalFinalized),
        pre.finalized().proposal.approve_votes == pre.proposal.approve_votes,
        pre.finalized().proposal.reject_votes == pre.proposal.reject_votes,
        (pre.outcome() is Approved) == pre.proposal.is_approved(),
{
}

} // verus!
