//! The request a user submits to have an item certified.

use vstd::prelude::*;
use crate::pubkey::Pubkey;
use crate::state::certification_type::CertificationType;

verus! {

/// Where a request stands.  A request starts as `Pending`; once `Approved`
/// or `Rejected` it stays so.
#[derive(Clone, Copy, Debug, PartialEq, Eq, Structural, Hash)]
pub enum RequestStatus {
    /// Waiting for the certifier.
    Pending,
    /// Approved: the certificate was issued.
    Approved,
    /// Rejected by the certifier.
    Rejected,
}

impl Default for RequestStatus {
    fn default() -> (status: RequestStatus)
        ensures
            status == RequestStatus::Pending,
    {
        RequestStatus::Pending
    }
}

/// A request for certification, with the fee it holds in escrow.
#[derive(Debug)]
pub struct CertificationRequest {
    /// Who asked for the certification and paid the fee.
    pub requester: Pubkey,
    /// The item's serial number.
    pub serial_number: String,
    /// The item's brand.
    pub brand: String,
    /// The item's model.
    pub model: String,
    /// The class asked for.
    pub cert_type: CertificationType,
    /// The item's estimated value.
    pub estimated_value: u64,
    /// Where the item's pictures and description are kept.
    pub metadata_uri: String,
    /// Where the request stands.
    pub status: RequestStatus,
    /// The certifier the request is assigned to, if any.
    pub assigned_certifier: Option<Pubkey>,
    /// Why the request was rejected; empty otherwise.
    pub rejection_reason: String,
    /// When the request was submitted, in seconds.
    pub created_at: i64,
    /// When the request was approved or rejected, in seconds; zero before.
    pub resolved_at: i64,
    /// The fee the requester paid.  It never changes.
    pub fee_paid: u64,
    /// What the request still holds of that fee.
    pub escrow_balance: u64,
}

/// A [`CertificationRequest`] as a mathematical value.
pub struct CertificationRequestView {
    pub requester: Pubkey,
    pub serial_number: Seq<char>,
    pub brand: Seq<char>,
    pub model: Seq<char>,
    pub cert_type: CertificationType,
    pub estimated_value: u64,
    pub metadata_uri: Seq<char>,
    pub status: RequestStatus,
    pub assigned_certifier: Option<Pubkey>,
    pub rejection_reason: Seq<char>,
    pub created_at: i64,
    pub resolved_at: i64,
    pub fee_paid: u64,
    pub escrow_balance: u64,
}

impl View for CertificationRequest {
    type V = CertificationRequestView;

    open spec fn view(&self) -> CertificationRequestView {
        CertificationRequestView {
            requester: self.requester,
            serial_number: self.serial_number@,
            brand: self.brand@,
            model: self.model@,
            cert_type: self.cert_type,
            estimated_value: self.estimated_value,
            metadata_uri: self.metadata_uri@,
            status: self.status,
            assigned_certifier: self.assigned_certifier,
            rejection_reason: self.rejection_reason@,
            created_at: self.created_at,
            resolved_at: self.resolved_at,
            fee_paid: self.fee_paid,
            escrow_balance: self.escrow_balance,
        }
    }
}

impl CertificationRequestView {
    /// A pending request holds exactly its fee; a resolved one holds nothing.
    pub open spec fn wf(self) -> bool {
        if self.status is Pending {
            self.escrow_balance == self.fee_paid
        } else {
            self.escrow_balance == 0
        }
    }

    /// Whether the request was approved or rejected.
    pub open spec fn is_resolved(self) -> bool {
        !(self.status is Pending)
    }
}

impl CertificationRequest {
    /// Largest number of bytes in a request's serial number.
    pub const MAX_SERIAL_LENGTH: usize = 50;

    /// Largest number of bytes in a request's brand.
    pub const MAX_BRAND_LENGTH: usize = 30;

    /// Largest number of bytes in a request's model.
    pub const MAX_MODEL_LENGTH: usize = 50;

    /// Largest number of bytes in a request's metadata reference.
    pub const MAX_URI_LENGTH: usize = 200;

    /// Largest number of bytes in the reason of a rejection.
    pub const MAX_REJECTION_REASON: usize = 200;
}

} // verus!
