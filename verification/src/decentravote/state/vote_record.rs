//! The record of one vote.  There is at most one per voter and proposal.

use vstd::prelude::*;
use crate::pubkey::Pubkey;

verus! {

/// What a voter chose.
#[derive(Clone, Copy, Debug, PartialEq, Eq, Structural, Hash)]
pub enum VoteChoice {
    /// In favour of the proposal.
    Approve,
    /// Against the proposal.
    Reject,
}

/// One vote.
#[derive(Clone, Copy, Debug)]
pub struct VoteRecord {
    /// Who voted.
    pub voter: Pubkey,
    /// The proposal voted on.
    pub proposal: Pubkey,
    /// What the voter chose.
    pub vote: VoteChoice,
}

} // verus!
