//! The registry: who administers it, which certifiers are approved, where
//! the platform's share goes, and how many certificates were issued.

use vstd::prelude::*;
use crate::errors::ErrorCode;
use crate::pubkey::Pubkey;
use crate::state::certification_type::CertificationType;
use crate::state::constants::MAX_CERTIFIERS;

verus! {

/// The registry of approved certifiers.
#[derive(Debug)]
pub struct CertificationAuthority {
    /// Who may add and remove certifiers.
    pub admin: Pubkey,
    /// The approved certifiers, in the order in which they were added.
    pub approved_certifiers: Vec<Pubkey>,
    /// Certificates issued, of all classes.
    pub total_issued: u64,
    /// Certificates issued in the class Standard.
    pub standard_count: u64,
    /// Certificates issued in the class Premium.
    pub premium_count: u64,
    /// Certificates issued in the class Luxury.
    pub luxury_count: u64,
    /// Certificates issued in the class Exceptional.
    pub exceptional_count: u64,
    /// Where the platform's share of the fees goes.
    pub treasury: Pubkey,
}

/// A [`CertificationAuthority`] as a mathematical value.
pub struct CertificationAuthorityView {
    pub admin: Pubkey,
    pub approved_certifiers: Seq<Pubkey>,
    pub total_issued: u64,
    pub standard_count: u64,
    pub premium_count: u64,
    pub luxury_count: u64,
    pub exceptional_count: u64,
    pub treasury: Pubkey,
}

impl View for CertificationAuthority {
    type V = CertificationAuthorityView;

    open spec fn view(&self) -> CertificationAuthorityView {
        CertificationAuthorityView {
            admin: self.admin,
            approved_certifiers: self.approved_certifiers@,
            total_issued: self.total_issued,
            standard_count: self.standard_count,
            premium_count: self.premium_count,
            luxury_count: self.luxury_count,
            exceptional_count: self.exceptional_count,
            treasury: self.treasury,
        }
    }
}

/// Where `key` first stands in `list`; the length of `list` where it does
/// not stand in it.
pub open spec fn first_position(list: Seq<Pubkey>, key: Pubkey) -> int
    decreases list.len(),
{
    if list.len() == 0 {
        0
    } else if list[0] == key {
        0
    } else {
        1 + first_position(list.drop_first(), key)
    }
}

/// `first_position` is the one index that holds `key` with no `key` before
/// it.
pub proof fn lemma_first_position(list: Seq<Pubkey>, key: Pubkey, i: int)
    requires
        0 <= i < list.len(),
        list[i] == key,
        forall|j: int| 0 <= j < i ==> list[j] != key,
    ensures
        first_position(list, key) == i,
    decreases list.len(),
{
    if i > 0 {
        let rest = list.drop_first();
        assert forall|j: int| 0 <= j < i - 1 implies rest[j] != key by {
            assert(rest[j] == list[j + 1]);
        }
        lemma_first_position(rest, key, i - 1);
    }
}

impl CertificationAuthorityView {
    /// No certifier is listed twice, the list holds at most
    /// [`CertificationAuthority::MAX_CERTIFIERS`] certifiers, and the total
    /// is the sum of the four classes.
    pub open spec fn wf(self) -> bool {
        &&& self.approved_certifiers.no_duplicates()
        &&& self.approved_certifiers.len() <= CertificationAuthority::MAX_CERTIFIERS
        &&& self.total_issued == self.standard_count + self.premium_count + self.luxury_count
            + self.exceptional_count
    }

    /// The registry as it is created: no certifier, nothing issued.
    pub open spec fn created(admin: Pubkey, treasury: Pubkey) -> CertificationAuthorityView {
        CertificationAuthorityView {
            admin,
            approved_certifiers: Seq::empty(),
            total_issued: 0,
            standard_count: 0,
            premium_count: 0,
            luxury_count: 0,
            exceptional_count: 0,
            treasury,
        }
    }

    /// Whether the certifier is approved.
    pub open spec fn is_approved_certifier(self, certifier: Pubkey) -> bool {
        self.approved_certifiers.contains(certifier)
    }

    /// The registry with one more approved certifier, at the end of the list.
    pub open spec fn with_certifier(self, certifier: Pubkey) -> CertificationAuthorityView {
        CertificationAuthorityView {
            approved_certifiers: self.approved_certifiers.push(certifier),
            ..self
        }
    }

    /// The registry without the first entry of the certifier.
    pub open spec fn without_certifier(self, certifier: Pubkey) -> CertificationAuthorityView {
        CertificationAuthorityView {
            approved_certifiers: self.approved_certifiers.remove(
                first_position(self.approved_certifiers, certifier),
            ),
            ..self
        }
    }

    /// Certificates issued in the given class.
    pub open spec fn count_of(self, cert_type: CertificationType) -> u64 {
        match cert_type {
            CertificationType::Standard => self.standard_count,
            CertificationType::Premium => self.premium_count,
            CertificationType::Luxury => self.luxury_count,
            CertificationType::Exceptional => self.exceptional_count,
        }
    }

    /// Whether one more certificate of the class fits in the counters.
    pub open spec fn counter_fits(self, cert_type: CertificationType) -> bool {
        self.total_issued < u64::MAX && self.count_of(cert_type) < u64::MAX
    }

    /// The registry after one more certificate of the class was issued.
    pub open spec fn counted(self, cert_type: CertificationType) -> CertificationAuthorityView {
        let total_issued = (self.total_issued + 1) as u64;
        let count = (self.count_of(cert_type) + 1) as u64;
        match cert_type {
            CertificationType::Standard => CertificationAuthorityView {
                total_issued,
                standard_count: count,
                ..self
            },
            CertificationType::Premium => CertificationAuthorityView {
                total_issued,
                premium_count: count,
                ..self
            },
            CertificationType::Luxury => CertificationAuthorityView {
                total_issued,
                luxury_count: count,
                ..self
            },
            CertificationType::Exceptional => CertificationAuthorityView {
                total_issued,
                exceptional_count: count,
                ..self
            },
        }
    }
}

impl CertificationAuthority {
    /// Largest number of approved certifiers.
    pub const MAX_CERTIFIERS: usize = MAX_CERTIFIERS;

    /// Whether the certifier is approved.
    pub fn is_approved_certifier(&self, certifier: &Pubkey) -> (approved: bool)
        ensures
            approved == self@.is_approved_certifier(*certifier),
    {
        self.position_of(certifier).is_some()
    }

    /// Where the certifier first stands in the approved list, if it is there.
    pub fn position_of(&self, certifier: &Pubkey) -> (position: Option<usize>)
        ensures
            match position {
                Some(i) => self@.approved_certifiers.contains(*certifier) && i
                    < self@.approved_certifiers.len() && i == first_position(
                    self@.approved_certifiers,
                    *certifier,
                ),
                None => !self@.approved_certifiers.contains(*certifier),
            },
    {
        let mut i: usize = 0;
        while i < self.approved_certifiers.len()
            invariant
                i <= self.approved_certifiers.len(),
                forall|j: int| 0 <= j < i ==> self.approved_certifiers@[j] != *certifier,
            decreases self.approved_certifiers.len() - i,
        {
            if self.approved_certifiers[i] == *certifier {
                proof {
                    lemma_first_position(self.approved_certifiers@, *certifier, i as int);
                }
                return Some(i);
            }
            i += 1;
        }
        None
    }

    /// Certificates issued in the given class.
    pub fn count_of(&self, cert_type: &CertificationType) -> (count: u64)
        ensures
            count == self@.count_of(*cert_type),
    {
        match cert_type {
            CertificationType::Standard => self.standard_count,
            CertificationType::Premium => self.premium_count,
            CertificationType::Luxury => self.luxury_count,
            CertificationType::Exceptional => self.exceptional_count,
        }
    }

    /// Counts one more certificate, in the total and in its class.  Fails,
    /// and changes nothing, where a counter is at the top of its range.
    pub fn increment_counter(&mut self, cert_type: &CertificationType) -> (result: Result<
        (),
        ErrorCode,
    >)
        ensures
            old(self)@.counter_fits(*cert_type) ==> result is Ok && final(self)@ == old(
                self,
            )@.counted(*cert_type),
            !old(self)@.counter_fits(*cert_type) ==> result == Err::<(), ErrorCode>(
                ErrorCode::ArithmeticOverflow,
            ) && *final(self) == *old(self),
    {
        let total = match self.total_issued.checked_add(1) {
            Some(total) => total,
            None => {
                return Err(ErrorCode::ArithmeticOverflow);
            },
        };
        let count = match self.count_of(cert_type).checked_add(1) {
            Some(count) => count,
            None => {
                return Err(ErrorCode::ArithmeticOverflow);
            },
        };
        self.total_issued = total;
        match cert_type {
            CertificationType::Standard => {
                self.standard_count = count;
            },
            CertificationType::Premium => {
                self.premium_count = count;
            },
            CertificationType::Luxury => {
                self.luxury_count = count;
            },
            CertificationType::Exceptional => {
                self.exceptional_count = count;
            },
        }
        Ok(())
    }
}

/// Adding a certifier that is not listed to a list that is not full keeps
/// the registry well formed, and makes the certifier approved.
pub proof fn lemma_with_certifier_keeps_wf(authority: CertificationAuthorityView, certifier: Pubkey)
    requires
        authority.wf(),
        !authority.is_approved_certifier(certifier),
        authority.approved_certifiers.len() < CertificationAuthority::MAX_CERTIFIERS,
    ensures
        authority.with_certifier(certifier).wf(),
        authority.with_certifier(certifier).is_approved_certifier(certifier),
        forall|other: Pubkey|
            authority.is_approved_certifier(other) ==> authority.with_certifier(
                certifier,
            ).is_approved_certifier(other),
{
    let before = authority.approved_certifiers;
    let after = authority.with_certifier(certifier).approved_certifiers;
    assert(after[before.len() as int] == certifier);
    assert forall|other: Pubkey| before.contains(other) implies after.contains(other) by {
        let i = choose|i: int| 0 <= i < before.len() && before[i] == other;
        assert(after[i] == other);
    }
    assert forall|i: int, j: int|
        0 <= i < after.len() && 0 <= j < after.len() && i != j implies after[i] != after[j] by {
        if i < before.len() && j < before.len() {
        } else if i < before.len() {
            assert(before.contains(before[i]));
        } else {
            assert(before.contains(before[j]));
        }
    }
}

/// Removing a listed certifier from a well-formed registry keeps it well
/// formed, leaves the certifier unapproved and every other one as it was.
pub proof fn lemma_without_certifier_keeps_wf(
    authority: CertificationAuthorityView,
    certifier: Pubkey,
)
    requires
        authority.wf(),
        authority.is_approved_certifier(certifier),
    ensures
        authority.without_certifier(certifier).wf(),
        !authority.without_certifier(certifier).is_approved_certifier(certifier),
        authority.without_certifier(certifier).approved_certifiers.len()
            == authority.approved_certifiers.len() - 1,
        forall|other: Pubkey|
            other != certifier ==> authority.without_certifier(certifier).is_approved_certifier(
                other,
            ) == authority.is_approved_certifier(other),
{
    let before = authority.approved_certifiers;
    let at = choose|i: int| 0 <= i < before.len() && before[i] == certifier;
    assert forall|j: int| 0 <= j < at implies before[j] != certifier by {}
    lemma_first_position(before, certifier, at);
    let after = before.remove(at);
    assert(after == authority.without_certifier(certifier).approved_certifiers);
    assert forall|i: int, j: int|
        0 <= i < after.len() && 0 <= j < after.len() && i != j implies after[i] != after[j] by {
        let oi = if i < at { i } else { i + 1 };
        let oj = if j < at { j } else { j + 1 };
        assert(after[i] == before[oi] && after[j] == before[oj]);
    }
    if after.contains(certifier) {
        let i = choose|i: int| 0 <= i < after.len() && after[i] == certifier;
        let oi = if i < at { i } else { i + 1 };
        assert(after[i] == before[oi]);
    }
    assert forall|other: Pubkey| other != certifier implies after.contains(other)
        == before.contains(other) by {
        if before.contains(other) {
            let i = choose|i: int| 0 <= i < before.len() && before[i] == other;
            let ni = if i < at { i } else { i - 1 };
            assert(after[ni] == other);
        }
        if after.contains(other) {
            let i = choose|i: int| 0 <= i < after.len() && after[i] == other;
            let oi = if i < at { i } else { i + 1 };
            assert(after[i] == before[oi]);
        }
    }
}

/// Counting a certificate keeps the registry well formed and lowers no
/// counter.
pub proof fn lemma_counted_keeps_wf(
    authority: CertificationAuthorityView,
    cert_type: CertificationType,
)
    requires
        authority.wf(),
        authority.counter_fits(cert_type),
    ensures
        authority.counted(cert_type).wf(),
        authority.counted(cert_type).total_issued == authority.total_issued + 1,
        authority.counted(cert_type).count_of(cert_type) == authority.count_of(cert_type) + 1,
        forall|other: CertificationType|
            other != cert_type ==> authority.counted(cert_type).count_of(other)
                == authority.count_of(other),
{
}

} // verus!
