//! Resuming the strategy's trading.

use vstd::prelude::*;
use crate::error::VaultError;
use crate::identity::Identity;
use crate::state::vault::Vault;

verus! {

#[derive(Clone, Debug, PartialEq, Eq)]
pub struct StartTrading {
    pub vault: Vault,
    /// Who asks to resume.
    pub leader: Identity,
}

/// The vault with trading open.
pub open spec fn resumed(vault: Vault) -> Vault {
    Vault { is_trading_paused: false, ..vault }
}

/// Resumes trading in the vault. Only the vault's leader may.
///
/// Resuming a vault that is not paused is no error.
pub fn start_trading(ctx: &mut StartTrading) -> (outcome: Result<(), VaultError>)
    ensures
        final(ctx).leader == old(ctx).leader,
        old(ctx).leader == old(ctx).vault.leader ==> outcome.is_ok() && final(ctx).vault
            == resumed(old(ctx).vault),
        old(ctx).leader != old(ctx).vault.leader ==> outcome == Err::<(), VaultError>(
            VaultError::Unauthorized,
        ) && *final(ctx) == *old(ctx),
{
    if !ctx.vault.is_leader(&ctx.leader) {
        return Err(VaultError::Unauthorized);
    }
    ctx.vault.is_trading_paused = false;
    Ok(())
}

} // verus!
