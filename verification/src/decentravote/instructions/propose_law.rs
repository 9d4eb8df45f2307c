//! Proposal of a law.

use vstd::prelude::*;
use crate::decentravote::state::proposal::{Proposal, ProposalView};
use crate::pubkey::Pubkey;

verus! {

/// The records a proposal touches.
#[derive(Debug)]
pub struct ProposeLaw {
    /// The caller, who proposes.
    pub proposer: Pubkey,
    /// The record in which the proposal is written.
    pub proposal: Proposal,
}

/// A [`ProposeLaw`] as a mathematical value.
pub struct ProposeLawView {
    pub proposer: Pubkey,
    pub proposal: ProposalView,
}

impl View for ProposeLaw {
    type V = ProposeLawView;

    open spec fn view(&self) -> ProposeLawView {
        ProposeLawView { proposer: self.proposer, proposal: self.proposal@ }
    }
}

impl ProposeLawView {
    /// The records after the proposal was written: no vote cast, voting
    /// open.
    pub open spec fn proposed(
        self,
        title: Seq<char>,
        description: Seq<char>,
        now: i64,
    ) -> ProposeLawView {
        ProposeLawView {
            proposer: self.proposer,
            proposal: ProposalView {
                title,
                description,
                proposer: self.proposer,
                approve_votes: 0,
                reject_votes: 0,
                created_at: now,
                is_finalized: false,
            },
        }
    }
}

/// Writes a new proposal by the caller of `ctx`, made at `now`, over the
/// record of `ctx`: no vote cast yet, voting open.
pub fn propose_law(ctx: &mut ProposeLaw, title: String, description: String, now: i64)
    ensures
        final(ctx)@ == old(ctx)@.proposed(title@, description@, now),
{
    ctx.proposal.title = title;
    ctx.proposal.description = description;
    ctx.proposal.proposer = ctx.proposer;
    ctx.proposal.approve_votes = 0;
    ctx.proposal.reject_votes = 0;
    ctx.proposal.created_at = now;
    ctx.proposal.is_finalized = false;
}

} // verus!
