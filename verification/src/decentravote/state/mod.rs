//! The records of a vote.

pub mod proposal;
pub mod vote_record;
