//! The certificate issued for an item, and who has owned it.

use vstd::prelude::*;
use crate::pubkey::Pubkey;
use crate::state::certification_type::CertificationType;
use crate::state::constants::MAX_PREVIOUS_OWNERS;

verus! {

/// The certificate of one item.  There is at most one per serial number.
#[derive(Debug)]
pub struct Certificate {
    /// The item's serial number.
    pub serial_number: String,
    /// The item's brand.
    pub brand: String,
    /// The item's model.
    pub model: String,
    /// The class under which the item was certified.
    pub cert_type: CertificationType,
    /// The item's estimated value.
    pub estimated_value: u64,
    /// Where the item's pictures and description are kept.
    pub metadata_uri: String,
    /// Who owns the item now.
    pub owner: Pubkey,
    /// Who certified the item.
    pub certifier: Pubkey,
    /// When the certificate was issued, in seconds.
    pub created_at: i64,
    /// When the item last changed hands, in seconds.
    pub last_transfer_at: i64,
    /// Until when the item cannot change hands, in seconds.
    pub locked_until: i64,
    /// Earlier owners, oldest first.
    pub previous_owners: Vec<Pubkey>,
}

/// A [`Certificate`] as a mathematical value.
pub struct CertificateView {
    pub serial_number: Seq<char>,
    pub brand: Seq<char>,
    pub model: Seq<char>,
    pub cert_type: CertificationType,
    pub estimated_value: u64,
    pub metadata_uri: Seq<char>,
    pub owner: Pubkey,
    pub certifier: Pubkey,
    pub created_at: i64,
    pub last_transfer_at: i64,
    pub locked_until: i64,
    pub previous_owners: Seq<Pubkey>,
}

impl View for Certificate {
    type V = CertificateView;

    open spec fn view(&self) -> CertificateView {
        CertificateView {
            serial_number: self.serial_number@,
            brand: self.brand@,
            model: self.model@,
            cert_type: self.cert_type,
            estimated_value: self.estimated_value,
            metadata_uri: self.metadata_uri@,
            owner: self.owner,
            certifier: self.certifier,
            created_at: self.created_at,
            last_transfer_at: self.last_transfer_at,
            locked_until: self.locked_until,
            previous_owners: self.previous_owners@,
        }
    }
}

impl CertificateView {
    /// The lock never ends before the last transfer, and the history holds
    /// at most [`Certificate::MAX_PREVIOUS_OWNERS`] owners.
    pub open spec fn wf(self) -> bool {
        &&& self.locked_until >= self.last_transfer_at
        &&& self.previous_owners.len() <= Certificate::MAX_PREVIOUS_OWNERS
    }

    /// Whether the item cannot change hands at `current_time`.
    pub open spec fn is_locked(self, current_time: i64) -> bool {
        current_time < self.locked_until
    }

    /// Whether `address` owns the item.
    pub open spec fn is_owner(self, address: Pubkey) -> bool {
        self.owner == address
    }

    /// The history with one more earlier owner, or the same history where it
    /// is full: the oldest entries stay.
    pub open spec fn history_with(self, previous_owner: Pubkey) -> Seq<Pubkey> {
        if self.previous_owners.len() < Certificate::MAX_PREVIOUS_OWNERS {
            self.previous_owners.push(previous_owner)
        } else {
            self.previous_owners
        }
    }
}

impl Certificate {
    /// Largest number of bytes in the serial number of a certificate issued
    /// directly.
    pub const MAX_SERIAL_LEN: usize = 50;

    /// Largest number of bytes in the brand of a certificate issued directly.
    pub const MAX_BRAND_LEN: usize = 30;

    /// Largest number of bytes in the model of a certificate issued directly.
    pub const MAX_MODEL_LEN: usize = 50;

    /// Largest number of bytes in the metadata reference of a certificate
    /// issued directly.
    pub const MAX_URI_LEN: usize = 100;

    /// Largest number of earlier owners a certificate remembers.
    pub const MAX_PREVIOUS_OWNERS: usize = MAX_PREVIOUS_OWNERS;

    /// Whether the item cannot change hands at `current_time`.
    pub fn is_locked(&self, current_time: i64) -> (locked: bool)
        ensures
            locked == self@.is_locked(current_time),
    {
        current_time < self.locked_until
    }

    /// Whether `address` owns the item.
    pub fn is_owner(&self, address: &Pubkey) -> (owns: bool)
        ensures
            owns == self@.is_owner(*address),
    {
        self.owner == *address
    }

    /// Remembers an earlier owner, unless the history is full.
    pub fn add_to_history(&mut self, previous_owner: Pubkey)
        ensures
            final(self)@ == (CertificateView {
                previous_owners: old(self)@.history_with(previous_owner),
                ..old(self)@
            }),
    {
        if self.previous_owners.len() < Certificate::MAX_PREVIOUS_OWNERS {
            self.previous_owners.push(previous_owner);
        }
    }
}

} // verus!
