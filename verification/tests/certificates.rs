use solcertify::errors::ErrorCode;
use solcertify::processor::issue_certificate::{self, IssueCertificate};
use solcertify::processor::transfer_certificate::{self, TransferCertificate};
use solcertify::processor::verify_certificate::{self, VerifyCertificate};
use solcertify::pubkey::Pubkey;
use solcertify::state::authority::CertificationAuthority;
use solcertify::state::certificate::Certificate;
use solcertify::state::certification_type::CertificationType;
use solcertify::state::timers::TimerConfig;
use solcertify::state::user_activity::UserActivity;
use solcertify::wallet::Wallet;

fn key(n: u8) -> Pubkey {
    Pubkey::new_from_array([n; 32])
}

const TREASURY: u8 = 2;
const CERTIFIER: u8 = 3;
const ALICE: u8 = 4;
const BOB: u8 = 5;

fn authority() -> CertificationAuthority {
    CertificationAuthority {
        admin: key(1),
        approved_certifiers: vec![key(CERTIFIER)],
        total_issued: 0,
        standard_count: 0,
        premium_count: 0,
        luxury_count: 0,
        exceptional_count: 0,
        treasury: key(TREASURY),
    }
}

fn timers() -> TimerConfig {
    TimerConfig::new(300, 600).unwrap()
}

fn issuance() -> IssueCertificate {
    IssueCertificate {
        certifier: Wallet { key: key(CERTIFIER), lamports: 600_000_000 },
        owner: key(ALICE),
        authority: authority(),
        certificate: None,
        owner_activity: None,
        treasury: Wallet { key: key(TREASURY), lamports: 5 },
    }
}

fn issue(ctx: &mut IssueCertificate, cert_type: CertificationType, now: i64) -> Result<(), ErrorCode> {
    issue_certificate::handler(
        ctx,
        String::from("PP-5711"),
        String::from("Patek Philippe"),
        String::from("Nautilus"),
        cert_type,
        120_000,
        String::from("ipfs://nautilus"),
        &timers(),
        now,
    )
}

fn issued(now: i64) -> (Certificate, UserActivity) {
    let mut ctx = issuance();
    issue(&mut ctx, CertificationType::Exceptional, now).unwrap();
    (ctx.certificate.unwrap(), ctx.owner_activity.unwrap())
}

fn transfer(now_issued: i64) -> TransferCertificate {
    let (certificate, from_activity) = issued(now_issued);
    TransferCertificate {
        from: key(ALICE),
        to: key(BOB),
        certificate,
        from_activity,
        to_activity: None,
    }
}

#[test]
fn issue_creates_a_locked_certificate_and_charges_the_fee() {
    let mut ctx = issuance();
    assert_eq!(issue(&mut ctx, CertificationType::Exceptional, 10_000), Ok(()));
    let certificate = ctx.certificate.as_ref().unwrap();
    assert_eq!(certificate.serial_number, "PP-5711");
    assert_eq!(certificate.brand, "Patek Philippe");
    assert_eq!(certificate.model, "Nautilus");
    assert_eq!(certificate.cert_type, CertificationType::Exceptional);
    assert_eq!(certificate.estimated_value, 120_000);
    assert_eq!(certificate.metadata_uri, "ipfs://nautilus");
    assert!(certificate.owner == key(ALICE));
    assert!(certificate.certifier == key(CERTIFIER));
    assert_eq!(certificate.created_at, 10_000);
    assert_eq!(certificate.last_transfer_at, 10_000);
    assert_eq!(certificate.locked_until, 10_600);
    assert!(certificate.previous_owners.is_empty());
    assert_eq!(ctx.certifier.lamports, 100_000_000);
    assert_eq!(ctx.treasury.lamports, 500_000_005);
    let activity = ctx.owner_activity.unwrap();
    assert!(activity.user == key(ALICE));
    assert_eq!((activity.certificate_count, activity.last_action_at), (1, 10_000));
    assert_eq!(ctx.authority.total_issued, 1);
    assert_eq!(ctx.authority.exceptional_count, 1);
    assert_eq!(ctx.authority.luxury_count, 0);
}

#[test]
fn issue_rejections_in_order() {
    let long = |n: usize| "x".repeat(n);
    let call = |ctx: &mut IssueCertificate, serial: String, brand: String, model: String, uri: String| {
        issue_certificate::handler(
            ctx,
            serial,
            brand,
            model,
            CertificationType::Standard,
            1,
            uri,
            &timers(),
            10_000,
        )
    };

    let mut ctx = issuance();
    ctx.certifier.key = key(BOB);
    assert_eq!(issue(&mut ctx, CertificationType::Standard, 1), Err(ErrorCode::UnauthorizedCertifier));

    let mut ctx = issuance();
    ctx.treasury.key = key(BOB);
    assert_eq!(issue(&mut ctx, CertificationType::Standard, 1), Err(ErrorCode::UnauthorizedCertifier));

    let mut ctx = issuance();
    assert_eq!(call(&mut ctx, long(51), long(1), long(1), long(1)), Err(ErrorCode::StringTooLong));
    assert_eq!(call(&mut ctx, long(1), long(31), long(1), long(1)), Err(ErrorCode::StringTooLong));
    assert_eq!(call(&mut ctx, long(1), long(1), long(51), long(1)), Err(ErrorCode::StringTooLong));
    assert_eq!(call(&mut ctx, long(1), long(1), long(1), long(101)), Err(ErrorCode::StringTooLong));
    assert!(ctx.certificate.is_none());
    assert_eq!(ctx.certifier.lamports, 600_000_000);
    assert_eq!(call(&mut ctx, long(50), long(30), long(50), long(100)), Ok(()));
    assert_eq!(ctx.certifier.lamports, 550_000_000);

    // The slot is taken now.
    ctx.owner_activity = None;
    assert_eq!(
        call(&mut ctx, long(50), long(30), long(50), long(100)),
        Err(ErrorCode::SerialNumberAlreadyExists)
    );
    assert_eq!(ctx.certifier.lamports, 550_000_000);
    assert!(ctx.owner_activity.is_none());

    let mut ctx = issuance();
    ctx.owner_activity = Some(UserActivity { user: key(ALICE), last_action_at: 0, certificate_count: 4 });
    assert_eq!(issue(&mut ctx, CertificationType::Standard, 10_000), Err(ErrorCode::MaxCertificatesReached));

    let mut ctx = issuance();
    ctx.owner_activity =
        Some(UserActivity { user: key(ALICE), last_action_at: 9_701, certificate_count: 1 });
    assert_eq!(issue(&mut ctx, CertificationType::Standard, 10_000), Err(ErrorCode::CooldownNotElapsed));
    assert_eq!(ctx.owner_activity.unwrap().last_action_at, 9_701);
    ctx.owner_activity =
        Some(UserActivity { user: key(ALICE), last_action_at: 9_700, certificate_count: 1 });
    assert_eq!(issue(&mut ctx, CertificationType::Standard, 10_000), Ok(()));
    assert_eq!(ctx.owner_activity.unwrap().certificate_count, 2);

    let mut ctx = issuance();
    ctx.certifier.lamports = 49_999_999;
    assert_eq!(issue(&mut ctx, CertificationType::Standard, 10_000), Err(ErrorCode::InsufficientPayment));
    assert_eq!(ctx.treasury.lamports, 5);

    let mut ctx = issuance();
    assert_eq!(
        issue(&mut ctx, CertificationType::Standard, i64::MAX - 599),
        Err(ErrorCode::ArithmeticOverflow)
    );
    let mut ctx = issuance();
    ctx.treasury.lamports = u64::MAX - 49_999_999;
    assert_eq!(issue(&mut ctx, CertificationType::Standard, 10_000), Err(ErrorCode::ArithmeticOverflow));
    assert_eq!(ctx.certifier.lamports, 600_000_000);
    let mut ctx = issuance();
    ctx.authority.total_issued = u64::MAX;
    assert_eq!(issue(&mut ctx, CertificationType::Standard, 10_000), Err(ErrorCode::ArithmeticOverflow));
    assert!(ctx.certificate.is_none());
    assert!(ctx.owner_activity.is_none());
    assert_eq!(ctx.authority.standard_count, 0);
}

#[test]
fn holder_never_owns_more_than_four() {
    let mut activity: Option<UserActivity> = None;
    let mut now = 1_000;
    for i in 0..7u8 {
        let mut ctx = issuance();
        ctx.owner_activity = activity;
        let result = issue(&mut ctx, CertificationType::Standard, now);
        if i < 4 {
            assert_eq!(result, Ok(()));
        } else {
            assert_eq!(result, Err(ErrorCode::MaxCertificatesReached));
        }
        activity = ctx.owner_activity;
        assert_eq!(activity.unwrap().certificate_count, std::cmp::min(i + 1, 4));
        now += 300;
    }

    // A full holder cannot receive by transfer either.
    let mut ctx = transfer(0);
    ctx.to_activity = Some(UserActivity { user: key(BOB), last_action_at: 0, certificate_count: 4 });
    assert_eq!(
        transfer_certificate::handler(&mut ctx, &timers(), 1_000),
        Err(ErrorCode::MaxCertificatesReached)
    );
    assert!(ctx.certificate.owner == key(ALICE));
    assert_eq!(ctx.to_activity.unwrap().certificate_count, 4);
    assert_eq!(ctx.from_activity.certificate_count, 1);

    // Giving one away makes room again.
    let mut give = transfer(0);
    give.from = key(BOB);
    give.to = key(ALICE);
    give.certificate.owner = key(BOB);
    give.from_activity = UserActivity { user: key(BOB), last_action_at: 0, certificate_count: 4 };
    assert_eq!(transfer_certificate::handler(&mut give, &timers(), 1_000), Ok(()));
    assert_eq!(give.from_activity.certificate_count, 3);
    ctx.to_activity = Some(give.from_activity);
    assert_eq!(transfer_certificate::handler(&mut ctx, &timers(), 1_300), Ok(()));
    assert_eq!(ctx.to_activity.unwrap().certificate_count, 4);
}

#[test]
fn transfer_moves_ownership_and_resets_the_lock() {
    let mut ctx = transfer(10_000);
    assert_eq!(transfer_certificate::handler(&mut ctx, &timers(), 10_600), Ok(()));
    assert!(ctx.certificate.owner == key(BOB));
    assert_eq!(ctx.certificate.last_transfer_at, 10_600);
    assert_eq!(ctx.certificate.locked_until, 11_200);
    assert_eq!(ctx.certificate.created_at, 10_000);
    assert_eq!(ctx.certificate.previous_owners.len(), 1);
    assert!(ctx.certificate.previous_owners[0] == key(ALICE));
    assert!(ctx.certificate.certifier == key(CERTIFIER));
    assert_eq!(ctx.certificate.serial_number, "PP-5711");
    assert_eq!((ctx.from_activity.certificate_count, ctx.from_activity.last_action_at), (0, 10_600));
    let buyer = ctx.to_activity.unwrap();
    assert!(buyer.user == key(BOB));
    assert_eq!((buyer.certificate_count, buyer.last_action_at), (1, 10_600));
}

#[test]
fn transfer_succeeds_iff_every_condition_holds() {
    // Issued at 10_000: locked until 10_600; the seller's cooldown ends at
    // 10_300; the buyer last acted at `buyer_last`.
    let attempt = |now: i64, buyer: Option<(i64, u8)>| {
        let mut ctx = transfer(10_000);
        ctx.to_activity = buyer.map(|(last_action_at, certificate_count)| UserActivity {
            user: key(BOB),
            last_action_at,
            certificate_count,
        });
        let result = transfer_certificate::handler(&mut ctx, &timers(), now);
        if result.is_err() {
            assert!(ctx.certificate.owner == key(ALICE));
            assert_eq!(ctx.certificate.locked_until, 10_600);
            assert_eq!(ctx.from_activity.certificate_count, 1);
            assert_eq!(ctx.from_activity.last_action_at, 10_000);
            assert!(ctx.certificate.previous_owners.is_empty());
        }
        result
    };
    assert_eq!(attempt(10_599, None), Err(ErrorCode::CertificateLocked));
    assert_eq!(attempt(10_599, Some((10_599, 4))), Err(ErrorCode::CertificateLocked));
    assert_eq!(attempt(10_600, None), Ok(()));
    assert_eq!(attempt(10_600, Some((10_301, 0))), Err(ErrorCode::CooldownNotElapsed));
    assert_eq!(attempt(10_600, Some((10_301, 4))), Err(ErrorCode::CooldownNotElapsed));
    assert_eq!(attempt(10_600, Some((10_300, 4))), Err(ErrorCode::MaxCertificatesReached));
    assert_eq!(attempt(10_600, Some((10_300, 3))), Ok(()));
    assert_eq!(attempt(10_600, Some((10_300, 0))), Ok(()));

    // The seller's own cooldown, with the lock already over.
    let mut ctx = transfer(10_000);
    ctx.from_activity.last_action_at = 10_500;
    assert_eq!(
        transfer_certificate::handler(&mut ctx, &timers(), 10_799),
        Err(ErrorCode::CooldownNotElapsed)
    );
    assert_eq!(transfer_certificate::handler(&mut ctx, &timers(), 10_800), Ok(()));
}

#[test]
fn transfer_needs_the_owner() {
    let mut ctx = transfer(10_000);
    ctx.from = key(BOB);
    assert_eq!(transfer_certificate::handler(&mut ctx, &timers(), 10_000), Err(ErrorCode::NotOwner));
    assert_eq!(transfer_certificate::handler(&mut ctx, &timers(), 20_000), Err(ErrorCode::NotOwner));
    assert!(ctx.certificate.owner == key(ALICE));
    assert!(ctx.to_activity.is_none());
}

#[test]
fn transfer_overflowing_lock_fails() {
    let mut ctx = transfer(10_000);
    assert_eq!(
        transfer_certificate::handler(&mut ctx, &timers(), i64::MAX - 599),
        Err(ErrorCode::ArithmeticOverflow)
    );
    assert!(ctx.certificate.owner == key(ALICE));
    assert_eq!(transfer_certificate::handler(&mut ctx, &timers(), i64::MAX - 600), Ok(()));
    assert_eq!(ctx.certificate.locked_until, i64::MAX);
}

#[test]
fn transfer_history_keeps_the_oldest_twenty() {
    let mut ctx = transfer(0);
    let mut now = 600;
    for i in 0..25u8 {
        let buyer = key(100 + i);
        ctx.to = buyer;
        ctx.to_activity = None;
        assert_eq!(transfer_certificate::handler(&mut ctx, &timers(), now), Ok(()));
        assert!(ctx.certificate.owner == buyer);
        assert_eq!(ctx.certificate.previous_owners.len(), std::cmp::min(i as usize + 1, 20));
        ctx.from = buyer;
        ctx.from_activity = ctx.to_activity.unwrap();
        now += 600;
    }
    assert!(ctx.certificate.previous_owners[0] == key(ALICE));
    for i in 1..20u8 {
        assert!(ctx.certificate.previous_owners[i as usize] == key(100 + i - 1));
    }
}

#[test]
fn seller_count_stops_at_zero() {
    let mut ctx = transfer(10_000);
    ctx.from_activity.certificate_count = 0;
    assert_eq!(transfer_certificate::handler(&mut ctx, &timers(), 10_600), Ok(()));
    assert_eq!(ctx.from_activity.certificate_count, 0);
    assert_eq!(ctx.to_activity.unwrap().certificate_count, 1);
}

#[test]
fn zero_durations_hold_nothing_back() {
    let none = TimerConfig::new(0, 0).unwrap();
    let mut ctx = issuance();
    issue_certificate::handler(
        &mut ctx,
        String::from("S"),
        String::from("B"),
        String::from("M"),
        CertificationType::Standard,
        1,
        String::from("U"),
        &none,
        50,
    )
    .unwrap();
    assert_eq!(ctx.certificate.as_ref().unwrap().locked_until, 50);
    let mut t = TransferCertificate {
        from: key(ALICE),
        to: key(BOB),
        certificate: ctx.certificate.unwrap(),
        from_activity: ctx.owner_activity.unwrap(),
        to_activity: None,
    };
    assert_eq!(transfer_certificate::handler(&mut t, &none, 50), Ok(()));
    assert_eq!(transfer_certificate::handler(&mut t, &none, 49), Err(ErrorCode::NotOwner));
}

#[test]
fn verify_reports_a_snapshot() {
    let (certificate, _) = issued(10_000);
    let mut authority = authority();
    authority.total_issued = 42;
    let ctx = VerifyCertificate { certificate, authority };
    let info = verify_certificate::handler(&ctx, 10_599);
    assert_eq!(info.serial_number, "PP-5711");
    assert_eq!(info.brand, "Patek Philippe");
    assert_eq!(info.model, "Nautilus");
    assert_eq!(info.cert_type, 3);
    assert_eq!(info.estimated_value, 120_000);
    assert!(info.owner == key(ALICE));
    assert!(info.certifier == key(CERTIFIER));
    assert_eq!(info.metadata_uri, "ipfs://nautilus");
    assert_eq!(info.created_at, 10_000);
    assert_eq!(info.last_transfer_at, 10_000);
    assert_eq!(info.locked_until, 10_600);
    assert!(info.is_locked);
    assert_eq!(info.previous_owners_count, 0);
    assert_eq!(info.total_certificates_issued, 42);
    assert!(!verify_certificate::handler(&ctx, 10_600).is_locked);
    assert_eq!(ctx.certificate.locked_until, 10_600);
    assert_eq!(ctx.authority.total_issued, 42);
}

#[test]
fn verify_codes_each_class_and_counts_owners() {
    let classes = [
        (CertificationType::Standard, 0u8),
        (CertificationType::Premium, 1),
        (CertificationType::Luxury, 2),
        (CertificationType::Exceptional, 3),
    ];
    for (class, code) in classes {
        let (mut certificate, _) = issued(0);
        certificate.cert_type = class;
        certificate.previous_owners = vec![key(7); code as usize + 1];
        let ctx = VerifyCertificate { certificate, authority: authority() };
        let info = verify_certificate::handler(&ctx, 0);
        assert_eq!(info.cert_type, code);
        assert_eq!(info.previous_owners_count, code + 1);
    }
    let (mut certificate, _) = issued(0);
    certificate.previous_owners = vec![key(7); 255];
    let mut ctx = VerifyCertificate { certificate, authority: authority() };
    assert_eq!(verify_certificate::handler(&ctx, 0).previous_owners_count, 255);
    ctx.certificate.previous_owners.push(key(7));
    assert_eq!(verify_certificate::handler(&ctx, 0).previous_owners_count, 255);
}
