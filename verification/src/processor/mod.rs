//! The operations of the certification workflow, one module each.

pub mod approve_certification;
pub mod reject_certification;
pub mod request_certification;
pub mod issue_certificate;
pub mod transfer_certificate;
pub mod add_certifier;
pub mod initialize;
pub mod remove_certifier;
pub mod verify_certificate;
