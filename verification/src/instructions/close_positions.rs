//! Who may have the strategy act, and when.

use vstd::prelude::*;
use crate::error::VaultError;
use crate::identity::Identity;
use crate::state::vault::Vault;

verus! {

#[derive(Clone, Debug, PartialEq, Eq)]
pub struct ClosePositions {
    pub vault: Vault,
    /// Who asks to close the positions.
    pub leader: Identity,
}

/// Why the strategy may not act for a caller, if it may not: only the leader
/// may ask, and only while the vault is active.
pub open spec fn strategy_refusal(vault: Vault, by_leader: bool) -> Option<VaultError> {
    if !by_leader {
        Some(VaultError::Unauthorized)
    } else if vault.is_terminated() {
        Some(VaultError::VaultTerminated)
    } else if vault.is_trading_paused {
        Some(VaultError::TradingPaused)
    } else {
        None
    }
}

/// Admits `caller` to the strategy of `vault`, or says why not.
pub fn admit_strategy(vault: &Vault, caller: &Identity) -> (outcome: Result<(), VaultError>)
    ensures
        match strategy_refusal(*vault, *caller == vault.leader) {
            Some(e) => outcome == Err::<(), VaultError>(e),
            None => outcome.is_ok(),
        },
{
    if !vault.is_leader(caller) {
        Err(VaultError::Unauthorized)
    } else if vault.has_ended() {
        Err(VaultError::VaultTerminated)
    } else if vault.is_trading_paused {
        Err(VaultError::TradingPaused)
    } else {
        Ok(())
    }
}

/// Admits or refuses the closing of all trading positions of the vault.
///
/// The closing itself happens at the trading venue and leaves the ledger as
/// it is. It is admitted only for the vault's leader and only while the vault
/// is active.
pub fn close_positions(ctx: &ClosePositions) -> (outcome: Result<(), VaultError>)
    ensures
        match strategy_refusal(ctx.vault, ctx.leader == ctx.vault.leader) {
            Some(e) => outcome == Err::<(), VaultError>(e),
            None => outcome.is_ok(),
        },
{
    admit_strategy(&ctx.vault, &ctx.leader)
}

} // verus!
