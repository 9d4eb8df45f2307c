//! The operations of a vote, one module each.

pub mod finalize;
pub mod propose_law;
pub mod vote;
