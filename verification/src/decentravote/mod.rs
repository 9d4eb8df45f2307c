//! Proposals and votes: anyone proposes a law, each voter votes once on it,
//! and it is closed once the voting time is over.  This part shares no
//! record with the certification workflow.

pub mod instructions;
pub mod state;
