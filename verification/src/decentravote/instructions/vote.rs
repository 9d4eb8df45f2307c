//! Casting of a vote.

use vstd::prelude::*;
use crate::decentravote::state::proposal::{Proposal, ProposalView};
use crate::decentravote::state::vote_record::{VoteChoice, VoteRecord};
use crate::pubkey::Pubkey;

verus! {

/// Why an operation on a proposal was rejected.
#[derive(Clone, Copy, Debug, PartialEq, Eq, Structural, Hash)]
pub enum ErrorCode {
    /// Voting on the proposal is closed.
    ProposalFinalized,
    /// The voting time is not over yet.
    TooEarly,
    /// A counter or a timestamp would leave its range.
    Overflow,
    /// The voter has voted on the proposal already.
    AlreadyVoted,
}

/// The records a vote touches.
#[derive(Debug)]
pub struct Vote {
    /// The caller, who votes.
    pub voter: Pubkey,
    /// The key under which the proposal is stored.
    pub proposal_key: Pubkey,
    /// The proposal.
    pub proposal: Proposal,
    /// The vote stored for this voter and this proposal, if there is one.
    pub vote_record: Option<VoteRecord>,
}

/// A [`Vote`] as a mathematical value.
pub struct VoteView {
    pub voter: Pubkey,
    pub proposal_key: Pubkey,
    pub proposal: ProposalView,
    pub vote_record: Option<VoteRecord>,
}

impl View for Vote {
    type V = VoteView;

    open spec fn view(&self) -> VoteView {
        VoteView {
            voter: self.voter,
            proposal_key: self.proposal_key,
            proposal: self.proposal@,
            vote_record: self.vote_record,
        }
    }
}

impl VoteView {
    /// The counter that the choice adds to.
    pub open spec fn votes_for(self, choice: VoteChoice) -> u64 {
        match choice {
            VoteChoice::Approve => self.proposal.approve_votes,
            VoteChoice::Reject => self.proposal.reject_votes,
        }
    }

    /// Why the vote is refused, or `None` where it is counted.  The first
    /// reason that applies is the one reported.
    pub open spec fn rejection(self, choice: VoteChoice) -> Option<ErrorCode> {
        if self.proposal.is_finalized {
            Some(ErrorCode::ProposalFinalized)
        } else if self.vote_record is Some {
            Some(ErrorCode::AlreadyVoted)
        } else if self.votes_for(choice) == u64::MAX {
            Some(ErrorCode::Overflow)
        } else {
            None
        }
    }

    /// The records after the vote was counted.
    pub open spec fn voted(self, choice: VoteChoice) -> VoteView {
        VoteView {
            voter: self.voter,
            proposal_key: self.proposal_key,
            proposal: match choice {
                VoteChoice::Approve => ProposalView {
                    approve_votes: (self.proposal.approve_votes + 1) as u64,
                    ..self.proposal
                },
                VoteChoice::Reject => ProposalView {
                    reject_votes: (self.proposal.reject_votes + 1) as u64,
                    ..self.proposal
                },
            },
            vote_record: Some(
                VoteRecord { voter: self.voter, proposal: self.proposal_key, vote: choice },
            ),
        }
    }
}

/// Counts the vote of the caller of `ctx` on its proposal.
///
/// The vote is refused, and nothing changes, for the first of these that
/// applies: voting is closed; the voter has voted already; the counter is at
/// the top of its range.  Otherwise the counter of the choice grows by one
/// and the vote is recorded.
pub fn vote(ctx: &mut Vote, choice: VoteChoice) -> (result: Result<(), ErrorCode>)
    ensures
        match old(ctx)@.rejection(choice) {
            Some(error) => result == Err::<(), ErrorCode>(error) && *final(ctx) == *old(ctx),
            None => result is Ok && final(ctx)@ == old(ctx)@.voted(choice),
        },
{
    if ctx.proposal.is_finalized {
        return Err(ErrorCode::ProposalFinalized);
    }
    if ctx.vote_record.is_some() {
        return Err(ErrorCode::AlreadyVoted);
    }
    match choice {
        VoteChoice::Approve => {
            match ctx.proposal.approve_votes.checked_add(1) {
                Some(votes) => {
                    ctx.proposal.approve_votes = votes;
                },
                None => {
                    return Err(ErrorCode::Overflow);
                },
            }
        },
        VoteChoice::Reject => {
            match ctx.proposal.reject_votes.checked_add(1) {
                Some(votes) => {
                    ctx.proposal.reject_votes = votes;
                },
                None => {
                    return Err(ErrorCode::Overflow);
                },
            }
        },
    }
    ctx.vote_record = Some(
        VoteRecord { voter: ctx.voter, proposal: ctx.proposal_key, vote: choice },
    );
    Ok(())
}

/// A vote that is counted adds one to the votes cast and leaves the other
/// counter as it was.
pub proof fn lemma_vote_counts_once(pre: VoteView, choice: VoteChoice)
    requires
        pre.rejection(choice) is None,
    ensures
        pre.voted(choice).proposal.total_votes() == pre.proposal.total_votes() + 1,
        pre.voted(choice).votes_for(choice) == pre.votes_for(choice) + 1,
        pre.voted(choice).rejection(choice) == Some(ErrorCode::AlreadyVoted),
{
}

} // verus!
