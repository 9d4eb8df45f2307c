//! Direct issuance: an approved certifier issues a certificate at once,
//! without a request, and pays the fee to the treasury.

use vstd::prelude::*;
use crate::errors::ErrorCode;
use crate::pubkey::Pubkey;
use crate::state::authority::{
    lemma_counted_keeps_wf,
    CertificationAuthority,
    CertificationAuthorityView,
};
use crate::state::certificate::{Certificate, CertificateView};
use crate::state::certification_type::CertificationType;
use crate::state::constants::MAX_CERTIFICATES;
use crate::state::item::ItemDescription;
use crate::state::text::{byte_len, byte_length};
use crate::state::timers::TimerConfig;
use crate::state::user_activity::{activity_after_event, HoldingEvent, UserActivity};
use crate::wallet::Wallet;

verus! {

/// The records a direct issuance touches.
#[derive(Debug)]
pub struct IssueCertificate {
    /// The certifier who issues, and who pays the fee.
    pub certifier: Wallet,
    /// Who will own the certificate.
    pub owner: Pubkey,
    /// The registry.
    pub authority: CertificationAuthority,
    /// The certificate stored for the serial number, if one was issued
    /// already.
    pub certificate: Option<Certificate>,
    /// The activity stored for the owner, if the owner has acted before.
    pub owner_activity: Option<UserActivity>,
    /// The account that receives the fee.
    pub treasury: Wallet,
}

/// An [`IssueCertificate`] as a mathematical value.
pub struct IssueCertificateView {
    pub certifier: Wallet,
    pub owner: Pubkey,
    pub authority: CertificationAuthorityView,
    pub certificate: Option<CertificateView>,
    pub owner_activity: Option<UserActivity>,
    pub treasury: Wallet,
}

impl View for IssueCertificate {
    type V = IssueCertificateView;

    open spec fn view(&self) -> IssueCertificateView {
        IssueCertificateView {
            certifier: self.certifier,
            owner: self.owner,
            authority: self.authority@,
            certificate: match self.certificate {
                Some(certificate) => Some(certificate@),
                None => None,
            },
            owner_activity: self.owner_activity,
            treasury: self.treasury,
        }
    }
}

impl IssueCertificateView {
    /// How many certificates the owner holds.
    pub open spec fn holdings(self) -> u8 {
        match self.owner_activity {
            Some(activity) => activity.certificate_count,
            None => 0,
        }
    }

    /// Whether the owner, having acted before, acted less than the cooldown
    /// ago.
    pub open spec fn owner_in_cooldown(self, now: i64, cooldown_period: i64) -> bool {
        self.owner_activity matches Some(activity) && !activity.spec_has_cooldown_elapsed(
            now,
            cooldown_period,
        )
    }

    /// Whether one of the item's text fields is longer than a directly
    /// issued certificate allows.
    pub open spec fn text_too_long(item: ItemDescription) -> bool {
        ||| byte_len(item.serial_number) > Certificate::MAX_SERIAL_LEN
        ||| byte_len(item.brand) > Certificate::MAX_BRAND_LEN
        ||| byte_len(item.model) > Certificate::MAX_MODEL_LEN
        ||| byte_len(item.metadata_uri) > Certificate::MAX_URI_LEN
    }

    /// Whether every counter, balance and timestamp that the issuance writes
    /// stays in its range.
    pub open spec fn arithmetic_fits(
        self,
        item: ItemDescription,
        now: i64,
        lock_period: i64,
    ) -> bool {
        &&& now + lock_period <= i64::MAX
        &&& self.treasury.can_receive(item.cert_type.spec_fee())
        &&& self.authority.counter_fits(item.cert_type)
    }

    /// Why the issuance is refused, or `None` where it goes through.  The
    /// first reason that applies is the one reported.
    pub open spec fn rejection(
        self,
        item: ItemDescription,
        now: i64,
        cooldown_period: i64,
        lock_period: i64,
    ) -> Option<ErrorCode> {
        if !self.authority.is_approved_certifier(self.certifier.key) {
            Some(ErrorCode::UnauthorizedCertifier)
        } else if self.treasury.key != self.authority.treasury {
            Some(ErrorCode::UnauthorizedCertifier)
        } else if Self::text_too_long(item) {
            Some(ErrorCode::StringTooLong)
        } else if self.certificate is Some {
            Some(ErrorCode::SerialNumberAlreadyExists)
        } else if self.holdings() >= MAX_CERTIFICATES {
            Some(ErrorCode::MaxCertificatesReached)
        } else if self.owner_in_cooldown(now, cooldown_period) {
            Some(ErrorCode::CooldownNotElapsed)
        } else if !self.certifier.can_pay(item.cert_type.spec_fee()) {
            Some(ErrorCode::InsufficientPayment)
        } else if !self.arithmetic_fits(item, now, lock_period) {
            Some(ErrorCode::ArithmeticOverflow)
        } else {
            None
        }
    }

    /// The certificate that the issuance creates.
    pub open spec fn issued_certificate(
        self,
        item: ItemDescription,
        now: i64,
        lock_period: i64,
    ) -> CertificateView {
        CertificateView {
            serial_number: item.serial_number,
            brand: item.brand,
            model: item.model,
            cert_type: item.cert_type,
            estimated_value: item.estimated_value,
            metadata_uri: item.metadata_uri,
            owner: self.owner,
            certifier: self.certifier.key,
            created_at: now,
            last_transfer_at: now,
            locked_until: (now + lock_period) as i64,
            previous_owners: Seq::empty(),
        }
    }

    /// The records after the issuance.
    pub open spec fn issued(
        self,
        item: ItemDescription,
        now: i64,
        lock_period: i64,
    ) -> IssueCertificateView {
        IssueCertificateView {
            certifier: self.certifier.debited(item.cert_type.spec_fee()),
            owner: self.owner,
            authority: self.authority.counted(item.cert_type),
            certificate: Some(self.issued_certificate(item, now, lock_period)),
            owner_activity: Some(
                match self.owner_activity {
                    Some(activity) => activity.acquired(now),
                    None => UserActivity::fresh(self.owner).acquired(now),
                },
            ),
            treasury: self.treasury.credited(item.cert_type.spec_fee()),
        }
    }
}

/// Issues a certificate for the described item to the owner of `ctx`, at
/// time `now`.
///
/// The issuance is refused, and nothing changes, for the first of these
/// that applies: the caller is not an approved certifier; the treasury is
/// not the registry's; a text field is too long; a certificate exists for
/// the serial number; the owner holds the largest number of certificates
/// allowed; the owner has acted before and less than the cooldown ago; the
/// certifier cannot pay the fee of the class; a counter, a balance or a
/// timestamp would leave its range.  Otherwise the fee moves from the
/// certifier to the treasury, the certificate is created for the owner and
/// locked for the lock period, and the owner's activity and the registry's
/// counters are brought up to date.
pub fn handler(
    ctx: &mut IssueCertificate,
    serial_number: String,
    brand: String,
    model: String,
    cert_type: CertificationType,
    estimated_value: u64,
    metadata_uri: String,
    timers: &TimerConfig,
    now: i64,
) -> (result: Result<(), ErrorCode>)
    ensures
        ({
            let item = ItemDescription {
                serial_number: serial_number@,
                brand: brand@,
                model: model@,
                cert_type,
                estimated_value,
                metadata_uri: metadata_uri@,
            };
            match old(ctx)@.rejection(
                item,
                now,
                timers.spec_cooldown_period(),
                timers.spec_lock_period(),
            ) {
                Some(error) => result == Err::<(), ErrorCode>(error) && *final(ctx) == *old(ctx),
                None => result is Ok && final(ctx)@ == old(ctx)@.issued(
                    item,
                    now,
                    timers.spec_lock_period(),
                ),
            }
        }),
{
    if !ctx.authority.is_approved_certifier(&ctx.certifier.key) {
        return Err(ErrorCode::UnauthorizedCertifier);
    }
    if ctx.treasury.key != ctx.authority.treasury {
        return Err(ErrorCode::UnauthorizedCertifier);
    }
    if byte_length(&serial_number) > Certificate::MAX_SERIAL_LEN {
        return Err(ErrorCode::StringTooLong);
    }
    if byte_length(&brand) > Certificate::MAX_BRAND_LEN {
        return Err(ErrorCode::StringTooLong);
    }
    if byte_length(&model) > Certificate::MAX_MODEL_LEN {
        return Err(ErrorCode::StringTooLong);
    }
    if byte_length(&metadata_uri) > Certificate::MAX_URI_LEN {
        return Err(ErrorCode::StringTooLong);
    }
    if ctx.certificate.is_some() {
        return Err(ErrorCode::SerialNumberAlreadyExists);
    }
    let owner_activity = match ctx.owner_activity {
        Some(activity) => {
            if !activity.can_receive_certificate(MAX_CERTIFICATES) {
                return Err(ErrorCode::MaxCertificatesReached);
            }
            if !activity.has_cooldown_elapsed(now, timers.cooldown_period()) {
                return Err(ErrorCode::CooldownNotElapsed);
            }
            activity
        },
        None => UserActivity { user: ctx.owner, last_action_at: 0, certificate_count: 0 },
    };
    let fee = cert_type.get_fee();
    let certifier_lamports = match ctx.certifier.lamports.checked_sub(fee) {
        Some(lamports) => lamports,
        None => {
            return Err(ErrorCode::InsufficientPayment);
        },
    };
    let locked_until = match now.checked_add(timers.lock_period()) {
        Some(locked_until) => locked_until,
        None => {
            return Err(ErrorCode::ArithmeticOverflow);
        },
    };
    let treasury_lamports = match ctx.treasury.lamports.checked_add(fee) {
        Some(lamports) => lamports,
        None => {
            return Err(ErrorCode::ArithmeticOverflow);
        },
    };
    // The last check is also the first change; where it fails it changes
    // nothing.
    match ctx.authority.increment_counter(&cert_type) {
        Ok(()) => {},
        Err(error) => {
            return Err(error);
        },
    }

    ctx.certifier.lamports = certifier_lamports;
    ctx.treasury.lamports = treasury_lamports;
    ctx.certificate = Some(
        Certificate {
            serial_number,
            brand,
            model,
            cert_type,
            estimated_value,
            metadata_uri,
            owner: ctx.owner,
            certifier: ctx.certifier.key,
            created_at: now,
            last_transfer_at: now,
            locked_until,
            previous_owners: Vec::new(),
        },
    );
    ctx.owner_activity = Some(
        UserActivity {
            user: owner_activity.user,
            last_action_at: now,
            certificate_count: owner_activity.certificate_count + 1,
        },
    );

    Ok(())
}

/// A direct issuance moves exactly the fee of the class from the certifier
/// to the treasury.
pub proof fn lemma_issuance_charges_the_fee(
    pre: IssueCertificateView,
    item: ItemDescription,
    now: i64,
    cooldown_period: i64,
    lock_period: i64,
)
    requires
        pre.rejection(item, now, cooldown_period, lock_period) is None,
    ensures
        ({
            let post = pre.issued(item, now, lock_period);
            let fee = item.cert_type.spec_fee();
            &&& post.certifier.lamports + fee == pre.certifier.lamports
            &&& post.treasury.lamports == pre.treasury.lamports + fee
            &&& post.certifier.lamports + post.treasury.lamports == pre.certifier.lamports
                + pre.treasury.lamports
        }),
{
}

/// A direct issuance leaves every record well formed: the certificate
/// belongs to the owner and is locked for the lock period, the owner owns
/// one certificate more and at most [`MAX_CERTIFICATES`], and the registry
/// counts one more certificate in the total and in the item's class.
pub proof fn lemma_issuance_keeps_records_wf(
    pre: IssueCertificateView,
    item: ItemDescription,
    now: i64,
    cooldown_period: i64,
    lock_period: i64,
)
    requires
        pre.authority.wf(),
        0 <= lock_period,
        pre.rejection(item, now, cooldown_period, lock_period) is None,
    ensures
        ({
            let post = pre.issued(item, now, lock_period);
            &&& post.certificate matches Some(certificate)
            &&& certificate.wf()
            &&& certificate.owner == pre.owner
            &&& certificate.certifier == pre.certifier.key
            &&& certificate.locked_until == now + lock_period
            &&& post.owner_activity matches Some(activity)
            &&& activity.wf()
            &&& activity.certificate_count == pre.holdings() + 1
            &&& activity.last_action_at == now
            &&& activity == activity_after_event(
                match pre.owner_activity {
                    Some(before) => before,
                    None => UserActivity::fresh(pre.owner),
                },
                HoldingEvent::Acquire(now),
            )
            &&& post.authority.wf()
            &&& post.authority.total_issued == pre.authority.total_issued + 1
            &&& post.authority.count_of(item.cert_type) == pre.authority.count_of(item.cert_type)
                + 1
            &&& post.authority.approved_certifiers == pre.authority.approved_certifiers
        }),
{
    lemma_counted_keeps_wf(pre.authority, item.cert_type);
}

/// With a cooldown that is not negative, a direct issuance does not move
/// the owner's last action back in time.
pub proof fn lemma_issuance_moves_time_forward(
    pre: IssueCertificateView,
    item: ItemDescription,
    now: i64,
    cooldown_period: i64,
    lock_period: i64,
)
    requires
        0 <= cooldown_period,
        pre.rejection(item, now, cooldown_period, lock_period) is None,
    ensures
        pre.owner_activity matches Some(activity) ==> now >= activity.last_action_at,
{
}

} // verus!
