//! Provenance and authenticity certificates for high-value items.
//!
//! The crate holds the certification workflow as a state machine over plain
//! records: the registry of approved certifiers, the profile that tracks each
//! certifier's workload, the request that is submitted, then approved or
//! rejected while its fee sits in escrow, and the certificate whose ownership
//! moves under a lock period and a cooldown.  Each operation takes the records
//! it touches, the caller and the current time, and either applies every
//! change or none.
//!
//! The records are those stored under the keys that the operation's inputs
//! name: the request and the certificate of a serial number, the profile of a
//! certifier, the activity of a holder.  Finding them, and keeping one record
//! per key, is the caller's part; so are the clock and the movement of
//! lamports between real accounts.
//!
//! The operations are the functions of this module.  What each one checks,
//! in which order, and what it leaves behind is spelled out by the
//! `rejection` function and the outcome function of its records, in
//! [`processor`].

use vstd::prelude::*;

pub mod decentravote;
pub mod errors;
pub mod processor;
pub mod pubkey;
pub mod state;
pub mod wallet;

use crate::errors::ErrorCode;
use crate::processor::add_certifier::AddCertifier;
use crate::processor::approve_certification::ApproveCertification;
use crate::processor::initialize::Initialize;
use crate::processor::issue_certificate::IssueCertificate;
use crate::processor::reject_certification::RejectCertification;
use crate::processor::remove_certifier::RemoveCertifier;
use crate::processor::request_certification::RequestCertification;
use crate::processor::transfer_certificate::TransferCertificate;
use crate::processor::verify_certificate::{CertificateInfo, VerifyCertificate};
use crate::pubkey::Pubkey;
use crate::state::certification_type::CertificationType;
use crate::state::item::ItemDescription;
use crate::state::timers::TimerConfig;

verus! {

/// Creates the registry.  See [`processor::initialize::handler`].
pub fn initialize(ctx: &mut Initialize) -> (result: Result<(), ErrorCode>)
    ensures
        match old(ctx)@.rejection() {
            Some(error) => result == Err::<(), ErrorCode>(error) && *final(ctx) == *old(ctx),
            None => result is Ok && final(ctx)@ == old(ctx)@.initialized(),
        },
{
    processor::initialize::handler(ctx)
}

/// Approves a certifier and creates its profile.  See
/// [`processor::add_certifier::handler`].
pub fn add_certifier(
    ctx: &mut AddCertifier,
    certifier: Pubkey,
    display_name: String,
    physical_address: String,
    now: i64,
) -> (result: Result<(), ErrorCode>)
    ensures
        match old(ctx)@.rejection(certifier, display_name@, physical_address@) {
            Some(error) => result == Err::<(), ErrorCode>(error) && *final(ctx) == *old(ctx),
            None => result is Ok && final(ctx)@ == old(ctx)@.added(
                certifier,
                display_name@,
                physical_address@,
                now,
            ),
        },
{
    processor::add_certifier::handler(ctx, certifier, display_name, physical_address, now)
}

/// Withdraws a certifier's approval.  See
/// [`processor::remove_certifier::handler`].
pub fn remove_certifier(ctx: &mut RemoveCertifier, certifier: Pubkey) -> (result: Result<
    (),
    ErrorCode,
>)
    ensures
        match old(ctx)@.rejection(certifier) {
            Some(error) => result == Err::<(), ErrorCode>(error) && *final(ctx) == *old(ctx),
            None => result is Ok && final(ctx)@ == old(ctx)@.removed(certifier),
        },
{
    processor::remove_certifier::handler(ctx, certifier)
}

/// Issues a certificate at once, without a request.  See
/// [`processor::issue_certificate::handler`].
pub fn issue_certificate(
    ctx: &mut IssueCertificate,
    serial_number: String,
    brand: String,
    model: String,
    cert_type: CertificationType,
    estimated_value: u64,
    metadata_uri: String,
    timers: &TimerConfig,
    now: i64,
) -> (result: Result<(), ErrorCode>)
    ensures
        ({
            let item = ItemDescription {
                serial_number: serial_number@,
                brand: brand@,
                model: model@,
                cert_type,
                estimated_value,
                metadata_uri: metadata_uri@,
            };
            match old(ctx)@.rejection(
                item,
                now,
                timers.spec_cooldown_period(),
                timers.spec_lock_period(),
            ) {
                Some(error) => result == Err::<(), ErrorCode>(error) && *final(ctx) == *old(ctx),
                None => result is Ok && final(ctx)@ == old(ctx)@.issued(
                    item,
                    now,
                    timers.spec_lock_period(),
                ),
            }
        }),
{
    processor::issue_certificate::handler(
        ctx,
        serial_number,
        brand,
        model,
        cert_type,
        estimated_value,
        metadata_uri,
        timers,
        now,
    )
}

/// Transfers a certificate to a new owner.  See
/// [`processor::transfer_certificate::handler`].
pub fn transfer_certificate(
    ctx: &mut TransferCertificate,
    timers: &TimerConfig,
    now: i64,
) -> (result: Result<(), ErrorCode>)
    ensures
        match old(ctx)@.rejection(now, timers.spec_cooldown_period(), timers.spec_lock_period()) {
            Some(error) => result == Err::<(), ErrorCode>(error) && *final(ctx) == *old(ctx),
            None => result is Ok && final(ctx)@ == old(ctx)@.transferred(
                now,
                timers.spec_lock_period(),
            ),
        },
{
    processor::transfer_certificate::handler(ctx, timers, now)
}

/// Reads a certificate.  See [`processor::verify_certificate::handler`].
pub fn verify_certificate(ctx: &VerifyCertificate, now: i64) -> (info: CertificateInfo)
    ensures
        info@ == ctx@.snapshot(now),
{
    processor::verify_certificate::handler(ctx, now)
}

/// Submits a request for certification and escrows its fee.  See
/// [`processor::request_certification::handler`].
pub fn request_certification(
    ctx: &mut RequestCertification,
    serial_number: String,
    brand: String,
    model: String,
    cert_type: CertificationType,
    estimated_value: u64,
    metadata_uri: String,
    target_certifier: Pubkey,
    now: i64,
) -> (result: Result<(), ErrorCode>)
    ensures
        ({
            let item = ItemDescription {
                serial_number: serial_number@,
                brand: brand@,
                model: model@,
                cert_type,
                estimated_value,
                metadata_uri: metadata_uri@,
            };
            match old(ctx)@.rejection(item, target_certifier) {
                Some(error) => result == Err::<(), ErrorCode>(error) && *final(ctx) == *old(ctx),
                None => result is Ok && final(ctx)@ == old(ctx)@.submitted(
                    item,
                    target_certifier,
                    now,
                ),
            }
        }),
{
    processor::request_certification::handler(
        ctx,
        serial_number,
        brand,
        model,
        cert_type,
        estimated_value,
        metadata_uri,
        target_certifier,
        now,
    )
}

/// Approves a request: issues the certificate and shares the fee, sixty
/// percent to the certifier and the rest to the treasury.  See
/// [`processor::approve_certification::handler`].
pub fn approve_certification(
    ctx: &mut ApproveCertification,
    timers: &TimerConfig,
    now: i64,
) -> (result: Result<(), ErrorCode>)
    ensures
        match old(ctx)@.rejection(now, timers.spec_lock_period()) {
            Some(error) => result == Err::<(), ErrorCode>(error) && *final(ctx) == *old(ctx),
            None => result is Ok && final(ctx)@ == old(ctx)@.approved(
                now,
                timers.spec_lock_period(),
            ),
        },
{
    processor::approve_certification::handler(ctx, timers, now)
}

/// Rejects a request and refunds the fee.  See
/// [`processor::reject_certification::handler`].
pub fn reject_certification(
    ctx: &mut RejectCertification,
    reason: String,
    now: i64,
) -> (result: Result<(), ErrorCode>)
    ensures
        match old(ctx)@.rejection(reason@, now) {
            Some(error) => result == Err::<(), ErrorCode>(error) && *final(ctx) == *old(ctx),
            None => result is Ok && final(ctx)@ == old(ctx)@.rejected(reason@, now),
        },
{
    processor::reject_certification::handler(ctx, reason, now)
}

} // verus!
