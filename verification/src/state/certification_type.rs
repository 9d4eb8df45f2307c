//! The classes of certification and the fee of each.

use vstd::prelude::*;

verus! {

/// The class of a certification, by the value of the item.
#[derive(Clone, Copy, Debug, PartialEq, Eq, Structural, Hash)]
pub enum CertificationType {
    Standard,
    Premium,
    Luxury,
    Exceptional,
}

impl CertificationType {
    /// The fee of each class, in lamports.
    pub open spec fn spec_fee(self) -> u64 {
        match self {
            CertificationType::Standard => 50_000_000,
            CertificationType::Premium => 100_000_000,
            CertificationType::Luxury => 250_000_000,
            CertificationType::Exceptional => 500_000_000,
        }
    }

    /// The number that stands for each class in a certificate snapshot.
    pub open spec fn spec_code(self) -> u8 {
        match self {
            CertificationType::Standard => 0,
            CertificationType::Premium => 1,
            CertificationType::Luxury => 2,
            CertificationType::Exceptional => 3,
        }
    }

    /// The fee of this class, in lamports.
    pub fn get_fee(&self) -> (fee: u64)
        ensures
            fee == self.spec_fee(),
    {
        match self {
            CertificationType::Standard => 50_000_000,
            CertificationType::Premium => 100_000_000,
            CertificationType::Luxury => 250_000_000,
            CertificationType::Exceptional => 500_000_000,
        }
    }
}

/// A dearer class never costs less: the fee grows with the class's number.
pub proof fn lemma_fee_grows_with_class(a: CertificationType, b: CertificationType)
    requires
        a.spec_code() < b.spec_code(),
    ensures
        a.spec_fee() < b.spec_fee(),
{
}

} // verus!
