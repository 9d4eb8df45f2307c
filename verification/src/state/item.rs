//! What is said of an item when it is submitted or certified.

use vstd::prelude::*;
use crate::state::certification_type::CertificationType;

verus! {

/// The description of an item, as a mathematical value.
pub struct ItemDescription {
    pub serial_number: Seq<char>,
    pub brand: Seq<char>,
    pub model: Seq<char>,
    pub cert_type: CertificationType,
    pub estimated_value: u64,
    pub metadata_uri: Seq<char>,
}

} // verus!
