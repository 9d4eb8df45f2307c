//! The records of the certification workflow.

pub mod certification_type;
pub mod constants;
pub mod text;
pub mod timers;
pub mod user_activity;
pub mod certifier_profile;
pub mod authority;
pub mod certificate;
pub mod certification_request;
pub mod fees;
pub mod item;
