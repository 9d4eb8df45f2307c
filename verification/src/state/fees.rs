//! How the fee of an approved request is shared.

use vstd::prelude::*;
use crate::state::constants::CERTIFIER_SHARE_PERCENT;

verus! {

/// The certifier's part of a fee: [`CERTIFIER_SHARE_PERCENT`] percent of
/// it, rounded down.
pub open spec fn certifier_share(fee: u64) -> u64 {
    (fee * CERTIFIER_SHARE_PERCENT / 100) as u64
}

/// The treasury's part of a fee: what the certifier does not get.
pub open spec fn treasury_share(fee: u64) -> u64 {
    (fee - certifier_share(fee)) as u64
}

/// The two parts of a fee add up to the fee, whatever the fee, and neither
/// is more than the fee.
pub proof fn lemma_shares_add_up(fee: u64)
    ensures
        certifier_share(fee) + treasury_share(fee) == fee,
        certifier_share(fee) == fee * 60 / 100,
        certifier_share(fee) <= fee,
        treasury_share(fee) <= fee,
{
    assert(CERTIFIER_SHARE_PERCENT == 60);
    assert(fee * 60 / 100 <= fee);
}

/// The two parts of a fee, the certifier's first.
pub fn split_fee(fee: u64) -> (shares: (u64, u64))
    ensures
        shares.0 == certifier_share(fee),
        shares.1 == treasury_share(fee),
{
    proof {
        lemma_shares_add_up(fee);
    }
    let percent: u128 = CERTIFIER_SHARE_PERCENT as u128;
    let certifier: u64 = (fee as u128 * percent / 100) as u64;
    (certifier, fee - certifier)
}

} // verus!
