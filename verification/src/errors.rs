//! Reasons for which an operation is rejected.
//!
//! Every rejection leaves all records as they were; none is retried by the
//! library.

use vstd::prelude::*;

verus! {

/// Why an operation was rejected.
#[derive(Clone, Copy, Debug, PartialEq, Eq, Structural, Hash)]
pub enum ErrorCode {
    /// The caller is not an approved certifier, not the administrator, or
    /// the treasury handed in is not the registry's.
    UnauthorizedCertifier,
    /// A certificate already exists for this serial number.
    SerialNumberAlreadyExists,
    /// The holder already owns the largest number of certificates allowed.
    MaxCertificatesReached,
    /// The holder acted too recently.
    CooldownNotElapsed,
    /// The certificate is still locked after its last acquisition.
    CertificateLocked,
    /// The caller does not own the certificate, or the account to refund is
    /// not the requester's.
    NotOwner,
    /// The certifier is already approved.
    CertifierAlreadyExists,
    /// The certifier is not in the approved list.
    CertifierNotFound,
    /// The approved list is full.
    MaxCertifiersReached,
    /// A text field of a directly issued certificate is too long.
    StringTooLong,
    /// The payer cannot cover the fee, or the escrow does not hold exactly
    /// the fee that was paid.
    InsufficientPayment,
    /// The request was already approved or rejected.
    RequestNotPending,
    /// The serial number of a request is too long.
    SerialNumberTooLong,
    /// The brand of a request is too long.
    BrandTooLong,
    /// The model of a request is too long.
    ModelTooLong,
    /// The metadata reference of a request is too long.
    MetadataUriTooLong,
    /// The reason given for a rejection is too long.
    RejectionReasonTooLong,
    /// A request already exists for this serial number.
    RequestAlreadyExists,
    /// The certifier's profile is switched off.
    CertifierNotActive,
    /// The certifier carries as many open requests as it may.
    CertifierAtCapacity,
    /// The caller is not the certifier the request is assigned to.
    NotAssignedCertifier,
    /// The postal address of a certifier is too long.
    PhysicalAddressTooLong,
    /// The display name of a certifier is too long.
    DisplayNameTooLong,
    /// A counter, a balance or a timestamp would leave its range.
    ArithmeticOverflow,
    /// The registry was already created.
    AlreadyInitialized,
}

/// The families into which rejections fall.
#[derive(Clone, Copy, Debug, PartialEq, Eq, Structural, Hash)]
pub enum ErrorCategory {
    /// The caller lacks the role the operation asks for.
    Authorization,
    /// A field is out of bounds.
    Validation,
    /// A record is not in the state the operation needs.
    State,
    /// A limit of the registry, of a certifier or of a holder is reached.
    Capacity,
    /// A record already exists under the key at which one was to be created.
    Concurrency,
    /// A checked arithmetic operation left its range.
    Arithmetic,
}

impl ErrorCode {
    /// The family of each rejection.
    pub open spec fn spec_category(self) -> ErrorCategory {
        match self {
            ErrorCode::UnauthorizedCertifier => ErrorCategory::Authorization,
            ErrorCode::NotOwner => ErrorCategory::Authorization,
            ErrorCode::NotAssignedCertifier => ErrorCategory::Authorization,
            ErrorCode::StringTooLong => ErrorCategory::Validation,
            ErrorCode::SerialNumberTooLong => ErrorCategory::Validation,
            ErrorCode::BrandTooLong => ErrorCategory::Validation,
            ErrorCode::ModelTooLong => ErrorCategory::Validation,
            ErrorCode::MetadataUriTooLong => ErrorCategory::Validation,
            ErrorCode::RejectionReasonTooLong => ErrorCategory::Validation,
            ErrorCode::PhysicalAddressTooLong => ErrorCategory::Validation,
            ErrorCode::DisplayNameTooLong => ErrorCategory::Validation,
            ErrorCode::RequestNotPending => ErrorCategory::State,
            ErrorCode::CooldownNotElapsed => ErrorCategory::State,
            ErrorCode::CertificateLocked => ErrorCategory::State,
            ErrorCode::CertifierNotFound => ErrorCategory::State,
            ErrorCode::CertifierNotActive => ErrorCategory::State,
            ErrorCode::InsufficientPayment => ErrorCategory::State,
            ErrorCode::MaxCertificatesReached => ErrorCategory::Capacity,
            ErrorCode::MaxCertifiersReached => ErrorCategory::Capacity,
            ErrorCode::CertifierAtCapacity => ErrorCategory::Capacity,
            ErrorCode::SerialNumberAlreadyExists => ErrorCategory::Concurrency,
            ErrorCode::RequestAlreadyExists => ErrorCategory::Concurrency,
            ErrorCode::CertifierAlreadyExists => ErrorCategory::Concurrency,
            ErrorCode::AlreadyInitialized => ErrorCategory::Concurrency,
            ErrorCode::ArithmeticOverflow => ErrorCategory::Arithmetic,
        }
    }

    /// The family this rejection belongs to.
    pub fn category(&self) -> (category: ErrorCategory)
        ensures
            category == self.spec_category(),
    {
        match self {
            ErrorCode::UnauthorizedCertifier
            | ErrorCode::NotOwner
            | ErrorCode::NotAssignedCertifier => ErrorCategory::Authorization,
            ErrorCode::StringTooLong
            | ErrorCode::SerialNumberTooLong
            | ErrorCode::BrandTooLong
            | ErrorCode::ModelTooLong
            | ErrorCode::MetadataUriTooLong
            | ErrorCode::RejectionReasonTooLong
            | ErrorCode::PhysicalAddressTooLong
            | ErrorCode::DisplayNameTooLong => ErrorCategory::Validation,
            ErrorCode::RequestNotPending
            | ErrorCode::CooldownNotElapsed
            | ErrorCode::CertificateLocked
            | ErrorCode::CertifierNotFound
            | ErrorCode::CertifierNotActive
            | ErrorCode::InsufficientPayment => ErrorCategory::State,
            ErrorCode::MaxCertificatesReached
            | ErrorCode::MaxCertifiersReached
            | ErrorCode::CertifierAtCapacity => ErrorCategory::Capacity,
            ErrorCode::SerialNumberAlreadyExists
            | ErrorCode::RequestAlreadyExists
            | ErrorCode::CertifierAlreadyExists
            | ErrorCode::AlreadyInitialized => ErrorCategory::Concurrency,
            ErrorCode::ArithmeticOverflow => ErrorCategory::Arithmetic,
        }
    }
}

} // verus!
