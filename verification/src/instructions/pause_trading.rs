//! Pausing the strategy's trading.

use vstd::prelude::*;
use crate::error::VaultError;
use crate::identity::Identity;
use crate::state::vault::Vault;

verus! {

#[derive(Clone, Debug, PartialEq, Eq)]
pub struct PauseTrading {
    pub vault: Vault,
    /// Who asks for the pause.
    pub leader: Identity,
}

/// The vault with trading paused.
pub open spec fn paused(vault: Vault) -> Vault {
    Vault { is_trading_paused: true, ..vault }
}

/// Pauses trading in the vault. Only the vault's leader may.
///
/// Pausing a paused vault is no error and leaves it paused. Deposits and
/// withdrawals stay open.
pub fn pause_trading(ctx: &mut PauseTrading) -> (outcome: Result<(), VaultError>)
    ensures
        final(ctx).leader == old(ctx).leader,
        old(ctx).leader == old(ctx).vault.leader ==> outcome.is_ok() && final(ctx).vault == paused(
            old(ctx).vault,
        ),
        old(ctx).leader != old(ctx).vault.leader ==> outcome == Err::<(), VaultError>(
            VaultError::Unauthorized,
        ) && *final(ctx) == *old(ctx),
{
    if !ctx.vault.is_leader(&ctx.leader) {
        return Err(VaultError::Unauthorized);
    }
    ctx.vault.is_trading_paused = true;
    Ok(())
}

/// Pausing twice is the same as pausing once.
pub proof fn lemma_pause_is_idempotent(vault: Vault)
    ensures
        paused(vault).is_trading_paused,
        paused(paused(vault)) == paused(vault),
        paused(vault).is_terminated() == vault.is_terminated(),
{
}

} // verus!
