//! The fixed parameters of the vault's rules.

use vstd::prelude::*;

verus! {

/// Price of one bond share while the vault has no shares: one whole share
/// for one unit of a payment asset that counts six decimal places.
pub const GENESIS_BOND_PRICE: u64 = 1_000_000;

/// Smallest first deposit that opens a vault: ten units of a payment asset
/// that counts six decimal places.
pub const MIN_INITIAL_DEPOSIT: u64 = 10_000_000;

/// Seconds a deposit stays locked before its owner may withdraw: five days.
pub const LOCK_SECONDS: i64 = 432_000;

/// The leader's performance fee is the profit divided by this.
pub const PERFORMANCE_FEE_DIVISOR: u64 = 10;

/// Percentage of the profit that accrues to the bond price.
pub const DEPOSITOR_PROFIT_PERCENT: u64 = 80;

} // verus!
