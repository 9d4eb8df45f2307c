use solcertify::errors::{ErrorCategory, ErrorCode};
use solcertify::processor::approve_certification::{self, ApproveCertification};
use solcertify::processor::reject_certification::{self, RejectCertification};
use solcertify::processor::request_certification::{self, RequestCertification};
use solcertify::pubkey::Pubkey;
use solcertify::state::authority::CertificationAuthority;
use solcertify::state::certification_request::{CertificationRequest, RequestStatus};
use solcertify::state::certification_type::CertificationType;
use solcertify::state::certifier_profile::CertifierProfile;
use solcertify::state::fees::split_fee;
use solcertify::state::timers::TimerConfig;
use solcertify::state::user_activity::UserActivity;
use solcertify::wallet::Wallet;

fn key(n: u8) -> Pubkey {
    Pubkey::new_from_array([n; 32])
}

const ADMIN: u8 = 1;
const TREASURY: u8 = 2;
const CERTIFIER: u8 = 3;
const REQUESTER: u8 = 4;
const OTHER: u8 = 5;

fn authority() -> CertificationAuthority {
    CertificationAuthority {
        admin: key(ADMIN),
        approved_certifiers: vec![key(CERTIFIER)],
        total_issued: 0,
        standard_count: 0,
        premium_count: 0,
        luxury_count: 0,
        exceptional_count: 0,
        treasury: key(TREASURY),
    }
}

fn profile(load: u16) -> CertifierProfile {
    CertifierProfile {
        certifier: key(CERTIFIER),
        current_load: load,
        total_processed: 0,
        total_processing_time: 0,
        physical_address: String::from("1 rue du Rhone, Geneve"),
        display_name: String::from("Atelier"),
        is_active: true,
        registered_at: 10,
    }
}

fn submission(balance: u64) -> RequestCertification {
    RequestCertification {
        requester: Wallet { key: key(REQUESTER), lamports: balance },
        authority: authority(),
        request: None,
        certifier_profile: profile(0),
    }
}

fn submit(ctx: &mut RequestCertification, serial: &str, cert_type: CertificationType, now: i64) -> Result<(), ErrorCode> {
    request_certification::handler(
        ctx,
        String::from(serial),
        String::from("Rolex"),
        String::from("Submariner"),
        cert_type,
        30_000,
        String::from("ipfs://watch"),
        key(CERTIFIER),
        now,
    )
}

fn pending_request() -> (CertificationRequest, CertifierProfile, Wallet) {
    let mut ctx = submission(1_000_000_000);
    submit(&mut ctx, "WA-001", CertificationType::Luxury, 1_000).unwrap();
    (ctx.request.unwrap(), ctx.certifier_profile, ctx.requester)
}

fn approval(request: CertificationRequest, profile: CertifierProfile) -> ApproveCertification {
    ApproveCertification {
        certifier: Wallet { key: key(CERTIFIER), lamports: 7 },
        authority: authority(),
        request,
        certificate: None,
        owner_activity: None,
        treasury: Wallet { key: key(TREASURY), lamports: 11 },
        certifier_profile: profile,
    }
}

fn rejection(request: CertificationRequest, profile: CertifierProfile, requester: Wallet) -> RejectCertification {
    RejectCertification {
        certifier: key(CERTIFIER),
        authority: authority(),
        request,
        requester,
        certifier_profile: profile,
    }
}

fn timers() -> TimerConfig {
    TimerConfig::new(300, 600).unwrap()
}

#[test]
fn submit_luxury_request_escrows_fee() {
    let mut ctx = submission(1_000_000_000);
    assert_eq!(submit(&mut ctx, "WA-001", CertificationType::Luxury, 1_000), Ok(()));
    let request = ctx.request.as_ref().unwrap();
    assert_eq!(request.status, RequestStatus::Pending);
    assert_eq!(request.escrow_balance, 250_000_000);
    assert_eq!(request.fee_paid, 250_000_000);
    assert_eq!(request.requester.to_bytes(), key(REQUESTER).to_bytes());
    assert_eq!(request.serial_number, "WA-001");
    assert_eq!(request.brand, "Rolex");
    assert_eq!(request.model, "Submariner");
    assert_eq!(request.cert_type, CertificationType::Luxury);
    assert_eq!(request.estimated_value, 30_000);
    assert_eq!(request.metadata_uri, "ipfs://watch");
    assert!(request.assigned_certifier == Some(key(CERTIFIER)));
    assert_eq!(request.rejection_reason, "");
    assert_eq!(request.created_at, 1_000);
    assert_eq!(request.resolved_at, 0);
    assert_eq!(ctx.requester.lamports, 750_000_000);
    assert_eq!(ctx.certifier_profile.current_load, 1);
}

#[test]
fn approve_luxury_request_splits_fee() {
    let (request, profile, _) = pending_request();
    let mut ctx = approval(request, profile);
    assert_eq!(approve_certification::handler(&mut ctx, &timers(), 1_500), Ok(()));

    let certificate = ctx.certificate.as_ref().unwrap();
    assert!(certificate.owner == key(REQUESTER));
    assert!(certificate.certifier == key(CERTIFIER));
    assert_eq!(certificate.serial_number, "WA-001");
    assert_eq!(certificate.brand, "Rolex");
    assert_eq!(certificate.model, "Submariner");
    assert_eq!(certificate.cert_type, CertificationType::Luxury);
    assert_eq!(certificate.estimated_value, 30_000);
    assert_eq!(certificate.metadata_uri, "ipfs://watch");
    assert_eq!(certificate.created_at, 1_500);
    assert_eq!(certificate.last_transfer_at, 1_500);
    assert_eq!(certificate.locked_until, 2_100);
    assert!(certificate.previous_owners.is_empty());

    assert_eq!(ctx.certifier.lamports, 7 + 150_000_000);
    assert_eq!(ctx.treasury.lamports, 11 + 100_000_000);
    assert_eq!(ctx.request.escrow_balance, 0);
    assert_eq!(ctx.request.fee_paid, 250_000_000);
    assert_eq!(ctx.request.status, RequestStatus::Approved);
    assert!(ctx.request.assigned_certifier == Some(key(CERTIFIER)));
    assert_eq!(ctx.request.resolved_at, 1_500);

    assert_eq!(ctx.authority.luxury_count, 1);
    assert_eq!(ctx.authority.total_issued, 1);
    assert_eq!(ctx.authority.standard_count, 0);
    assert_eq!(ctx.authority.premium_count, 0);
    assert_eq!(ctx.authority.exceptional_count, 0);

    let activity = ctx.owner_activity.unwrap();
    assert!(activity.user == key(REQUESTER));
    assert_eq!(activity.certificate_count, 1);
    assert_eq!(activity.last_action_at, 1_500);

    assert_eq!(ctx.certifier_profile.current_load, 0);
    assert_eq!(ctx.certifier_profile.total_processed, 1);
    assert_eq!(ctx.certifier_profile.total_processing_time, 500);
}

#[test]
fn reject_request_refunds_requester() {
    let (request, profile, requester) = pending_request();
    assert_eq!(requester.lamports, 750_000_000);
    assert_eq!(profile.current_load, 1);
    let mut ctx = rejection(request, profile, requester);
    assert_eq!(
        reject_certification::handler(&mut ctx, String::from("Counterfeit movement"), 1_060),
        Ok(())
    );
    assert_eq!(ctx.requester.lamports, 1_000_000_000);
    assert_eq!(ctx.request.status, RequestStatus::Rejected);
    assert_eq!(ctx.request.rejection_reason, "Counterfeit movement");
    assert_eq!(ctx.request.escrow_balance, 0);
    assert_eq!(ctx.request.resolved_at, 1_060);
    assert_eq!(ctx.certifier_profile.current_load, 0);
    assert_eq!(ctx.certifier_profile.total_processed, 1);
    assert_eq!(ctx.certifier_profile.total_processing_time, 60);
}

#[test]
fn approve_for_holder_of_four_fails_and_changes_nothing() {
    let (request, profile, _) = pending_request();
    let mut ctx = approval(request, profile);
    ctx.owner_activity =
        Some(UserActivity { user: key(REQUESTER), last_action_at: 900, certificate_count: 4 });
    let result = approve_certification::handler(&mut ctx, &timers(), 1_500);
    assert_eq!(result, Err(ErrorCode::MaxCertificatesReached));
    assert_eq!(ErrorCode::MaxCertificatesReached.category(), ErrorCategory::Capacity);

    assert!(ctx.certificate.is_none());
    assert_eq!(ctx.certifier.lamports, 7);
    assert_eq!(ctx.treasury.lamports, 11);
    assert_eq!(ctx.request.status, RequestStatus::Pending);
    assert_eq!(ctx.request.escrow_balance, 250_000_000);
    assert_eq!(ctx.request.resolved_at, 0);
    assert_eq!(ctx.authority.total_issued, 0);
    assert_eq!(ctx.authority.luxury_count, 0);
    let activity = ctx.owner_activity.unwrap();
    assert_eq!(activity.certificate_count, 4);
    assert_eq!(activity.last_action_at, 900);
    assert_eq!(ctx.certifier_profile.current_load, 1);
    assert_eq!(ctx.certifier_profile.total_processed, 0);
}

#[test]
fn second_approve_fails_with_state_error() {
    let (request, profile, _) = pending_request();
    let mut ctx = approval(request, profile);
    approve_certification::handler(&mut ctx, &timers(), 1_500).unwrap();

    // The storage hands the same records in again, the certificate slot
    // being that of another serial number or not: the status decides.
    let certifier = ctx.certifier.lamports;
    let treasury = ctx.treasury.lamports;
    let result = approve_certification::handler(&mut ctx, &timers(), 1_600);
    assert_eq!(result, Err(ErrorCode::RequestNotPending));
    assert_eq!(ErrorCode::RequestNotPending.category(), ErrorCategory::State);
    assert_eq!(ctx.certifier.lamports, certifier);
    assert_eq!(ctx.treasury.lamports, treasury);
    assert_eq!(ctx.request.escrow_balance, 0);
    assert_eq!(ctx.request.status, RequestStatus::Approved);
    assert_eq!(ctx.request.resolved_at, 1_500);
    assert_eq!(ctx.authority.total_issued, 1);
    assert_eq!(ctx.certifier_profile.total_processed, 1);

    ctx.certificate = None;
    ctx.owner_activity = None;
    let result = approve_certification::handler(&mut ctx, &timers(), 1_600);
    assert_eq!(result, Err(ErrorCode::RequestNotPending));
    assert!(ctx.certificate.is_none());
    assert_eq!(ctx.certifier.lamports, certifier);
    assert_eq!(ctx.treasury.lamports, treasury);
}

#[test]
fn reject_after_approve_fails_with_state_error() {
    let (request, profile, requester) = pending_request();
    let mut approve = approval(request, profile);
    approve_certification::handler(&mut approve, &timers(), 1_500).unwrap();
    let mut ctx = rejection(approve.request, approve.certifier_profile, requester);
    let result = reject_certification::handler(&mut ctx, String::from("late"), 1_700);
    assert_eq!(result, Err(ErrorCode::RequestNotPending));
    assert_eq!(ctx.request.status, RequestStatus::Approved);
    assert_eq!(ctx.requester.lamports, 750_000_000);
    assert_eq!(ctx.request.rejection_reason, "");
}

#[test]
fn approve_after_reject_fails_with_state_error() {
    let (request, profile, requester) = pending_request();
    let mut reject = rejection(request, profile, requester);
    reject_certification::handler(&mut reject, String::from("no"), 1_100).unwrap();
    let mut ctx = approval(reject.request, reject.certifier_profile);
    let result = approve_certification::handler(&mut ctx, &timers(), 1_700);
    assert_eq!(result, Err(ErrorCode::RequestNotPending));
    assert_eq!(ctx.request.status, RequestStatus::Rejected);
    assert!(ctx.certificate.is_none());
    assert_eq!(ctx.certifier.lamports, 7);
}

#[test]
fn second_reject_fails_with_state_error() {
    let (request, profile, requester) = pending_request();
    let mut ctx = rejection(request, profile, requester);
    reject_certification::handler(&mut ctx, String::from("first"), 1_100).unwrap();
    let result = reject_certification::handler(&mut ctx, String::from("second"), 1_200);
    assert_eq!(result, Err(ErrorCode::RequestNotPending));
    assert_eq!(ctx.request.rejection_reason, "first");
    assert_eq!(ctx.request.resolved_at, 1_100);
    assert_eq!(ctx.requester.lamports, 1_000_000_000);
    assert_eq!(ctx.certifier_profile.total_processed, 1);
}

#[test]
fn fee_shares_add_up_to_fee() {
    for fee in [0u64, 1, 2, 3, 99, 100, 101, 50_000_000, 250_000_000, u64::MAX - 1, u64::MAX] {
        let (certifier, treasury) = split_fee(fee);
        assert_eq!(certifier as u128 + treasury as u128, fee as u128);
        assert_eq!(certifier as u128, fee as u128 * 60 / 100);
    }
    assert_eq!(split_fee(250_000_000), (150_000_000, 100_000_000));
    assert_eq!(split_fee(50_000_000), (30_000_000, 20_000_000));
    assert_eq!(split_fee(101), (60, 41));
    assert_eq!(split_fee(1), (0, 1));
}

#[test]
fn approval_of_each_class_counts_in_its_class() {
    let classes = [
        (CertificationType::Standard, 50_000_000u64),
        (CertificationType::Premium, 100_000_000),
        (CertificationType::Luxury, 250_000_000),
        (CertificationType::Exceptional, 500_000_000),
    ];
    for (class, fee) in classes {
        let mut ctx = submission(fee);
        submit(&mut ctx, "S-1", class, 5).unwrap();
        assert_eq!(ctx.requester.lamports, 0);
        let mut approve = approval(ctx.request.unwrap(), ctx.certifier_profile);
        approve_certification::handler(&mut approve, &timers(), 5).unwrap();
        let counts = (
            approve.authority.standard_count,
            approve.authority.premium_count,
            approve.authority.luxury_count,
            approve.authority.exceptional_count,
        );
        let expected = match class {
            CertificationType::Standard => (1, 0, 0, 0),
            CertificationType::Premium => (0, 1, 0, 0),
            CertificationType::Luxury => (0, 0, 1, 0),
            CertificationType::Exceptional => (0, 0, 0, 1),
        };
        assert_eq!(counts, expected);
        assert_eq!(approve.authority.total_issued, 1);
        assert_eq!(approve.certifier.lamports - 7 + approve.treasury.lamports - 11, fee);
        assert_eq!(approve.request.escrow_balance, 0);
        assert_eq!(approve.certifier_profile.total_processing_time, 0);
    }
}

#[test]
fn submit_rejections() {
    let mut ctx = submission(1_000_000_000);
    submit(&mut ctx, "WA-001", CertificationType::Standard, 1).unwrap();
    assert_eq!(
        submit(&mut ctx, "WA-001", CertificationType::Standard, 2),
        Err(ErrorCode::RequestAlreadyExists)
    );
    assert_eq!(ctx.requester.lamports, 950_000_000);
    assert_eq!(ctx.certifier_profile.current_load, 1);
    assert_eq!(ctx.request.as_ref().unwrap().created_at, 1);

    let long = |n: usize| "x".repeat(n);
    let mut ctx = submission(1_000_000_000);
    let call = |ctx: &mut RequestCertification, serial: String, brand: String, model: String, uri: String, target: u8| {
        request_certification::handler(
            ctx,
            serial,
            brand,
            model,
            CertificationType::Premium,
            1,
            uri,
            key(target),
            9,
        )
    };
    assert_eq!(
        call(&mut ctx, long(51), long(31), long(51), long(201), OTHER),
        Err(ErrorCode::SerialNumberTooLong)
    );
    assert_eq!(
        call(&mut ctx, long(50), long(31), long(51), long(201), OTHER),
        Err(ErrorCode::BrandTooLong)
    );
    assert_eq!(
        call(&mut ctx, long(50), long(30), long(51), long(201), OTHER),
        Err(ErrorCode::ModelTooLong)
    );
    assert_eq!(
        call(&mut ctx, long(50), long(30), long(50), long(201), OTHER),
        Err(ErrorCode::MetadataUriTooLong)
    );
    assert_eq!(
        call(&mut ctx, long(50), long(30), long(50), long(200), OTHER),
        Err(ErrorCode::UnauthorizedCertifier)
    );
    assert!(ctx.request.is_none());
    assert_eq!(ctx.requester.lamports, 1_000_000_000);
    assert_eq!(ctx.certifier_profile.current_load, 0);
    assert_eq!(call(&mut ctx, long(50), long(30), long(50), long(200), CERTIFIER), Ok(()));
    assert_eq!(ctx.requester.lamports, 900_000_000);

    // Lengths are counted in bytes: seventeen three-byte characters exceed
    // fifty bytes.
    let mut ctx = submission(1_000_000_000);
    assert_eq!(
        call(&mut ctx, "\u{20ac}".repeat(17), long(1), long(1), long(1), CERTIFIER),
        Err(ErrorCode::SerialNumberTooLong)
    );
    assert_eq!(call(&mut ctx, "\u{20ac}".repeat(16), long(1), long(1), long(1), CERTIFIER), Ok(()));

    let mut ctx = submission(99_999_999);
    assert_eq!(
        submit(&mut ctx, "WA-002", CertificationType::Premium, 3),
        Err(ErrorCode::InsufficientPayment)
    );
    assert_eq!(ctx.requester.lamports, 99_999_999);
    assert!(ctx.request.is_none());

    let mut ctx = submission(1_000_000_000);
    ctx.certifier_profile.current_load = u16::MAX;
    assert_eq!(
        submit(&mut ctx, "WA-003", CertificationType::Premium, 3),
        Err(ErrorCode::ArithmeticOverflow)
    );
    assert_eq!(ctx.requester.lamports, 1_000_000_000);
    assert!(ctx.request.is_none());
    assert_eq!(ctx.certifier_profile.current_load, u16::MAX);
}

#[test]
fn approve_rejections_in_order() {
    let fresh = || {
        let (request, profile, _) = pending_request();
        approval(request, profile)
    };

    let mut ctx = fresh();
    ctx.certifier.key = key(OTHER);
    assert_eq!(
        approve_certification::handler(&mut ctx, &timers(), 1_500),
        Err(ErrorCode::NotAssignedCertifier)
    );

    let mut ctx = fresh();
    ctx.authority.approved_certifiers.clear();
    assert_eq!(
        approve_certification::handler(&mut ctx, &timers(), 1_500),
        Err(ErrorCode::UnauthorizedCertifier)
    );

    let mut ctx = fresh();
    ctx.treasury.key = key(OTHER);
    assert_eq!(
        approve_certification::handler(&mut ctx, &timers(), 1_500),
        Err(ErrorCode::UnauthorizedCertifier)
    );
    assert_eq!(ctx.treasury.lamports, 11);

    let mut ctx = fresh();
    let mut done = fresh();
    approve_certification::handler(&mut done, &timers(), 1_500).unwrap();
    ctx.certificate = done.certificate;
    assert_eq!(
        approve_certification::handler(&mut ctx, &timers(), 1_500),
        Err(ErrorCode::SerialNumberAlreadyExists)
    );
    assert_eq!(ErrorCode::SerialNumberAlreadyExists.category(), ErrorCategory::Concurrency);
    assert_eq!(ctx.request.status, RequestStatus::Pending);

    let mut ctx = fresh();
    ctx.request.escrow_balance = 249_999_999;
    assert_eq!(
        approve_certification::handler(&mut ctx, &timers(), 1_500),
        Err(ErrorCode::InsufficientPayment)
    );
    assert_eq!(ctx.request.escrow_balance, 249_999_999);

    let mut ctx = fresh();
    assert_eq!(
        approve_certification::handler(&mut ctx, &timers(), 999),
        Err(ErrorCode::ArithmeticOverflow)
    );
    let mut ctx = fresh();
    assert_eq!(
        approve_certification::handler(&mut ctx, &timers(), i64::MAX - 599),
        Err(ErrorCode::ArithmeticOverflow)
    );
    let mut ctx = fresh();
    assert_eq!(approve_certification::handler(&mut ctx, &timers(), i64::MAX - 600), Ok(()));
    assert_eq!(ctx.certificate.as_ref().unwrap().locked_until, i64::MAX);

    let mut ctx = fresh();
    ctx.certifier.lamports = u64::MAX - 149_999_999;
    assert_eq!(
        approve_certification::handler(&mut ctx, &timers(), 1_500),
        Err(ErrorCode::ArithmeticOverflow)
    );
    assert_eq!(ctx.certifier.lamports, u64::MAX - 149_999_999);
    assert_eq!(ctx.request.escrow_balance, 250_000_000);

    let mut ctx = fresh();
    ctx.authority.luxury_count = u64::MAX;
    assert_eq!(
        approve_certification::handler(&mut ctx, &timers(), 1_500),
        Err(ErrorCode::ArithmeticOverflow)
    );
    assert_eq!(ctx.authority.total_issued, 0);
    assert_eq!(ctx.certifier.lamports, 7);

    let mut ctx = fresh();
    ctx.certifier_profile.total_processing_time = u64::MAX - 499;
    assert_eq!(
        approve_certification::handler(&mut ctx, &timers(), 1_500),
        Err(ErrorCode::ArithmeticOverflow)
    );
    assert!(ctx.certificate.is_none());
    assert_eq!(ctx.authority.total_issued, 0);
    assert_eq!(ctx.certifier_profile.current_load, 1);

    // A request that names no certifier may be approved by any approved one.
    let mut ctx = fresh();
    ctx.request.assigned_certifier = None;
    assert_eq!(approve_certification::handler(&mut ctx, &timers(), 1_500), Ok(()));
    assert!(ctx.request.assigned_certifier == Some(key(CERTIFIER)));
}

#[test]
fn approve_adds_to_existing_holdings() {
    let (request, profile, _) = pending_request();
    let mut ctx = approval(request, profile);
    ctx.owner_activity =
        Some(UserActivity { user: key(REQUESTER), last_action_at: 1_499, certificate_count: 3 });
    assert_eq!(approve_certification::handler(&mut ctx, &timers(), 1_500), Ok(()));
    let activity = ctx.owner_activity.unwrap();
    assert_eq!(activity.certificate_count, 4);
    assert_eq!(activity.last_action_at, 1_500);
}

#[test]
fn reject_rejections_in_order() {
    let fresh = || {
        let (request, profile, requester) = pending_request();
        rejection(request, profile, requester)
    };
    let reason = || String::from("Counterfeit movement");

    let mut ctx = fresh();
    ctx.certifier = key(OTHER);
    ctx.authority.approved_certifiers.push(key(OTHER));
    assert_eq!(
        reject_certification::handler(&mut ctx, reason(), 1_060),
        Err(ErrorCode::NotAssignedCertifier)
    );

    let mut ctx = fresh();
    ctx.request.assigned_certifier = None;
    assert_eq!(
        reject_certification::handler(&mut ctx, reason(), 1_060),
        Err(ErrorCode::NotAssignedCertifier)
    );

    let mut ctx = fresh();
    ctx.authority.approved_certifiers.clear();
    assert_eq!(
        reject_certification::handler(&mut ctx, reason(), 1_060),
        Err(ErrorCode::UnauthorizedCertifier)
    );

    let mut ctx = fresh();
    ctx.requester.key = key(OTHER);
    assert_eq!(reject_certification::handler(&mut ctx, reason(), 1_060), Err(ErrorCode::NotOwner));
    assert_eq!(ctx.requester.lamports, 750_000_000);

    let mut ctx = fresh();
    assert_eq!(
        reject_certification::handler(&mut ctx, "r".repeat(201), 1_060),
        Err(ErrorCode::RejectionReasonTooLong)
    );
    assert_eq!(ctx.request.status, RequestStatus::Pending);
    assert_eq!(reject_certification::handler(&mut ctx, "r".repeat(200), 1_060), Ok(()));

    let mut ctx = fresh();
    ctx.request.escrow_balance = 250_000_001;
    assert_eq!(
        reject_certification::handler(&mut ctx, reason(), 1_060),
        Err(ErrorCode::InsufficientPayment)
    );

    let mut ctx = fresh();
    assert_eq!(
        reject_certification::handler(&mut ctx, reason(), 999),
        Err(ErrorCode::ArithmeticOverflow)
    );

    let mut ctx = fresh();
    ctx.requester.lamports = u64::MAX;
    assert_eq!(
        reject_certification::handler(&mut ctx, reason(), 1_060),
        Err(ErrorCode::ArithmeticOverflow)
    );
    assert_eq!(ctx.request.escrow_balance, 250_000_000);

    let mut ctx = fresh();
    ctx.certifier_profile.total_processed = u64::MAX;
    assert_eq!(
        reject_certification::handler(&mut ctx, reason(), 1_060),
        Err(ErrorCode::ArithmeticOverflow)
    );
    assert_eq!(ctx.requester.lamports, 750_000_000);
    assert_eq!(ctx.certifier_profile.current_load, 1);
}

#[test]
fn load_is_submissions_less_resolutions() {
    // Five requests go to one certifier; two are rejected, one is approved.
    let mut profile = profile(0);
    let mut requests = Vec::new();
    for i in 0..5u8 {
        let mut ctx = RequestCertification {
            requester: Wallet { key: key(REQUESTER), lamports: 1_000_000_000 },
            authority: authority(),
            request: None,
            certifier_profile: profile,
        };
        submit(&mut ctx, &format!("WA-{}", i), CertificationType::Standard, 100).unwrap();
        profile = ctx.certifier_profile;
        requests.push((ctx.request.unwrap(), ctx.requester));
        assert_eq!(profile.current_load, i as u16 + 1);
    }
    for resolved in 1..=2u16 {
        let (request, requester) = requests.pop().unwrap();
        let mut ctx = rejection(request, profile, requester);
        reject_certification::handler(&mut ctx, String::from("no"), 200).unwrap();
        profile = ctx.certifier_profile;
        assert_eq!(profile.current_load, 5 - resolved);
    }
    let (request, _) = requests.pop().unwrap();
    let mut ctx = approval(request, profile);
    approve_certification::handler(&mut ctx, &timers(), 300).unwrap();
    assert_eq!(ctx.certifier_profile.current_load, 2);
    assert_eq!(ctx.certifier_profile.total_processed, 3);
    assert_eq!(ctx.certifier_profile.total_processing_time, 100 + 100 + 200);
    assert_eq!(ctx.certifier_profile.average_processing_time(), 133);
}
