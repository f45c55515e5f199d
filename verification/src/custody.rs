//! The calls that an operation asks of asset custody.
//!
//! The engine never moves an asset itself. A processor that accepts an
//! operation returns the custody calls that belong to it, in the order in
//! which they are to be made. The ledger update that the processor made stands
//! only if every one of them succeeds.

use vstd::prelude::*;
use crate::error::VaultError;

verus! {

/// Whose balance a custody call touches.
#[derive(Clone, Copy, Debug, PartialEq, Eq, Structural)]
pub enum Holder {
    /// The vault's custody account of the payment asset.
    Vault,
    /// The account of the depositor that the operation is about.
    Depositor,
    /// The backend wallet, where a terminated vault's balance goes.
    Backend,
}

/// Who authorises a transfer.
#[derive(Clone, Copy, Debug, PartialEq, Eq, Structural)]
pub enum Authority {
    /// The owner of the source account signs.
    Owner,
    /// The vault's authority signs; `bump` completes its derivation.
    VaultAuthority { bump: u8 },
}

/// One request to asset custody.
#[derive(Clone, Copy, Debug, PartialEq, Eq, Structural)]
pub enum CustodyCall {
    /// Move `amount` of the payment asset from `from` to `to`.
    Transfer { from: Holder, to: Holder, authority: Authority, amount: u64 },
    /// Issue `amount` bond shares to `to`.
    Mint { to: Holder, amount: u64 },
    /// Retire `amount` bond shares from `from`.
    Burn { from: Holder, amount: u64 },
}

/// What custody answered to the calls of one operation.
#[derive(Clone, Copy, Debug, PartialEq, Eq, Structural)]
pub enum CustodyOutcome {
    /// Every call succeeded.
    Completed,
    /// A call failed; none of the operation's calls took effect.
    Failed,
}

/// Concludes an operation whose ledger update was made on the copy `staged`.
///
/// If custody completed the operation's calls, `ledger` becomes `staged`. If
/// custody failed, `ledger` stays as it was and the failure is reported.
pub fn settle<T>(ledger: &mut T, staged: T, custody: CustodyOutcome) -> (outcome: Result<
    (),
    VaultError,
>)
    ensures
        custody == CustodyOutcome::Completed ==> outcome.is_ok() && *final(ledger) == staged,
        custody == CustodyOutcome::Failed ==> outcome == Err::<(), VaultError>(
            VaultError::CustodyError,
        ) && *final(ledger) == *old(ledger),
{
    match custody {
        CustodyOutcome::Completed => {
            *ledger = staged;
            Ok(())
        },
        CustodyOutcome::Failed => Err(VaultError::CustodyError),
    }
}

} // verus!
