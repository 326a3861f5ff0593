pub mod decimal;
pub mod escape;
pub mod hex;
pub mod page;
pub mod rpc;
pub mod service;

use vstd::prelude::*;

verus! {

/// Number of wei in one whole token unit.
pub const WEI_PER_TOKEN: u64 = 1000000000000000000;

/// Minimum balance, in wei, that qualifies for the airdrop:
/// one tenth of a whole token unit.
pub const THRESHOLD_WEI: u64 = 100000000000000000;

/// Whether a balance of `wei` wei meets the eligibility threshold.
/// The boundary is inclusive: exactly one tenth of a token qualifies.
pub fn is_eligible(wei: u64) -> (r: bool)
    ensures
        r == (wei >= THRESHOLD_WEI),
{
    wei >= THRESHOLD_WEI
}

} // verus!
