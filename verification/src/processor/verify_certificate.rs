//! Reading of a certificate.

use vstd::prelude::*;
use crate::pubkey::Pubkey;
use crate::state::authority::{CertificationAuthority, CertificationAuthorityView};
use crate::state::certificate::{Certificate, CertificateView};
use crate::state::certification_type::CertificationType;

verus! {

/// What a reading of a certificate reports.
#[derive(Debug)]
pub struct CertificateInfo {
    pub serial_number: String,
    pub brand: String,
    pub model: String,
    /// The class: 0 for Standard, 1 for Premium, 2 for Luxury, 3 for
    /// Exceptional.
    pub cert_type: u8,
    pub estimated_value: u64,
    pub owner: Pubkey,
    pub certifier: Pubkey,
    pub metadata_uri: String,
    pub created_at: i64,
    pub last_transfer_at: i64,
    pub locked_until: i64,
    /// Whether the certificate was locked when it was read.
    pub is_locked: bool,
    /// How many earlier owners the certificate remembers, 255 standing for
    /// any larger number.
    pub previous_owners_count: u8,
    /// Certificates issued by the registry, of all classes.
    pub total_certificates_issued: u64,
}

/// A [`CertificateInfo`] as a mathematical value.
pub struct CertificateInfoView {
    pub serial_number: Seq<char>,
    pub brand: Seq<char>,
    pub model: Seq<char>,
    pub cert_type: u8,
    pub estimated_value: u64,
    pub owner: Pubkey,
    pub certifier: Pubkey,
    pub metadata_uri: Seq<char>,
    pub created_at: i64,
    pub last_transfer_at: i64,
    pub locked_until: i64,
    pub is_locked: bool,
    pub previous_owners_count: u8,
    pub total_certificates_issued: u64,
}

impl View for CertificateInfo {
    type V = CertificateInfoView;

    open spec fn view(&self) -> CertificateInfoView {
        CertificateInfoView {
            serial_number: self.serial_number@,
            brand: self.brand@,
            model: self.model@,
            cert_type: self.cert_type,
            estimated_value: self.estimated_value,
            owner: self.owner,
            certifier: self.certifier,
            metadata_uri: self.metadata_uri@,
            created_at: self.created_at,
            last_transfer_at: self.last_transfer_at,
            locked_until: self.locked_until,
            is_locked: self.is_locked,
            previous_owners_count: self.previous_owners_count,
            total_certificates_issued: self.total_certificates_issued,
        }
    }
}

/// The records a reading looks at.
#[derive(Debug)]
pub struct VerifyCertificate {
    /// The certificate.
    pub certificate: Certificate,
    /// The registry.
    pub authority: CertificationAuthority,
}

/// A [`VerifyCertificate`] as a mathematical value.
pub struct VerifyCertificateView {
    pub certificate: CertificateView,
    pub authority: CertificationAuthorityView,
}

impl View for VerifyCertificate {
    type V = VerifyCertificateView;

    open spec fn view(&self) -> VerifyCertificateView {
        VerifyCertificateView { certificate: self.certificate@, authority: self.authority@ }
    }
}

impl VerifyCertificateView {
    /// What a reading at `now` reports.
    pub open spec fn snapshot(self, now: i64) -> CertificateInfoView {
        CertificateInfoView {
            serial_number: self.certificate.serial_number,
            brand: self.certificate.brand,
            model: self.certificate.model,
            cert_type: self.certificate.cert_type.spec_code(),
            estimated_value: self.certificate.estimated_value,
            owner: self.certificate.owner,
            certifier: self.certificate.certifier,
            metadata_uri: self.certificate.metadata_uri,
            created_at: self.certificate.created_at,
            last_transfer_at: self.certificate.last_transfer_at,
            locked_until: self.certificate.locked_until,
            is_locked: self.certificate.is_locked(now),
            previous_owners_count: if self.certificate.previous_owners.len() <= u8::MAX {
                self.certificate.previous_owners.len() as u8
            } else {
                u8::MAX
            },
            total_certificates_issued: self.authority.total_issued,
        }
    }
}

/// Reads the certificate of `ctx` at time `now`.  Nothing changes and
/// nothing is refused.
pub fn handler(ctx: &VerifyCertificate, now: i64) -> (info: CertificateInfo)
    ensures
        info@ == ctx@.snapshot(now),
{
    let certificate = &ctx.certificate;
    let cert_type: u8 = match certificate.cert_type {
        CertificationType::Standard => 0,
        CertificationType::Premium => 1,
        CertificationType::Luxury => 2,
        CertificationType::Exceptional => 3,
    };
    let owners = certificate.previous_owners.len();
    let previous_owners_count: u8 = if owners <= 255 {
        owners as u8
    } else {
        255
    };
    CertificateInfo {
        serial_number: certificate.serial_number.clone(),
        brand: certificate.brand.clone(),
        model: certificate.model.clone(),
        cert_type,
        estimated_value: certificate.estimated_value,
        owner: certificate.owner,
        certifier: certificate.certifier,
        metadata_uri: certificate.metadata_uri.clone(),
        created_at: certificate.created_at,
        last_transfer_at: certificate.last_transfer_at,
        locked_until: certificate.locked_until,
        is_locked: certificate.is_locked(now),
        previous_owners_count,
        total_certificates_issued: ctx.authority.total_issued,
    }
}

/// A reading of a well-formed certificate reports the exact number of its
/// earlier owners.
pub proof fn lemma_snapshot_counts_owners(pre: VerifyCertificateView, now: i64)
    requires
        pre.certificate.wf(),
    ensures
        pre.snapshot(now).previous_owners_count == pre.certificate.previous_owners.len(),
{
}

} // verus!
