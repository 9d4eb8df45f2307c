//! A proposed law and the votes cast on it.

use vstd::prelude::*;
use crate::pubkey::Pubkey;

verus! {

/// A proposed law.
#[derive(Debug)]
pub struct Proposal {
    /// The title, which also names the proposal.
    pub title: String,
    /// What the law says.
    pub description: String,
    /// Who proposed it.
    pub proposer: Pubkey,
    /// Votes in favour.
    pub approve_votes: u64,
    /// Votes against.
    pub reject_votes: u64,
    /// When it was proposed, in seconds.
    pub created_at: i64,
    /// Whether voting is closed.  Once closed it stays closed.
    pub is_finalized: bool,
}

/// A [`Proposal`] as a mathematical value.
pub struct ProposalView {
    pub title: Seq<char>,
    pub description: Seq<char>,
    pub proposer: Pubkey,
    pub approve_votes: u64,
    pub reject_votes: u64,
    pub created_at: i64,
    pub is_finalized: bool,
}

impl View for Proposal {
    type V = ProposalView;

    open spec fn view(&self) -> ProposalView {
        ProposalView {
            title: self.title@,
            description: self.description@,
            proposer: self.proposer,
            approve_votes: self.approve_votes,
            reject_votes: self.reject_votes,
            created_at: self.created_at,
            is_finalized: self.is_finalized,
        }
    }
}

impl ProposalView {
    /// Whether more voters are in favour than against.
    pub open spec fn is_approved(self) -> bool {
        self.approve_votes > self.reject_votes
    }

    /// How many votes were cast.
    pub open spec fn total_votes(self) -> int {
        self.approve_votes + self.reject_votes
    }
}

impl Proposal {
    /// Whether more voters are in favour than against.
    pub fn is_approved(&self) -> (approved: bool)
        ensures
            approved == self@.is_approved(),
    {
        self.approve_votes > self.reject_votes
    }

    /// How many votes were cast.
    pub fn total_votes(&self) -> (total: u64)
        requires
            self@.total_votes() <= u64::MAX,
        ensures
            total == self@.total_votes(),
    {
        self.approve_votes + self.reject_votes
    }
}

} // verus!
