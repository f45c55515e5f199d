//! Creation of a vault's ledger record.

use vstd::prelude::*;
use crate::constants::GENESIS_BOND_PRICE;
use crate::identity::Identity;
use crate::state::vault::Vault;

verus! {

/// The identities that a new vault is bound to.
#[derive(Clone, Copy, Debug, PartialEq, Eq)]
pub struct InitializeVault {
    /// Who creates the vault and controls it from then on.
    pub leader: Identity,
    pub backend_wallet: Identity,
    pub vault_authority: Identity,
    /// Completes the derivation of `vault_authority`.
    pub vault_authority_bump: u8,
}

/// The record of a vault that `ctx` creates under the name `strategy_id`:
/// active, at the genesis price, with nothing deposited.
pub open spec fn created_vault(ctx: InitializeVault, strategy_id: String) -> Vault {
    Vault {
        strategy_id,
        bond_price: GENESIS_BOND_PRICE,
        bond_supply: 0,
        tvl: 0,
        deposit_value: 0,
        leader: ctx.leader,
        is_trading_paused: false,
        backend_wallet: ctx.backend_wallet,
        vault_authority: ctx.vault_authority,
        vault_authority_bump: ctx.vault_authority_bump,
    }
}

/// Creates the ledger record of a vault that `ctx.leader` leads.
///
/// The vault starts active, at the genesis price, with all totals zero and
/// no strategy named yet.
pub fn initialize_vault(ctx: &InitializeVault) -> (vault: Vault)
    ensures
        vault == created_vault(*ctx, vault.strategy_id),
        vault.strategy_id@ == Seq::<char>::empty(),
        vault.well_formed(),
{
    Vault {
        strategy_id: String::new(),
        bond_price: GENESIS_BOND_PRICE,
        bond_supply: 0,
        tvl: 0,
        deposit_value: 0,
        leader: ctx.leader,
        is_trading_paused: false,
        backend_wallet: ctx.backend_wallet,
        vault_authority: ctx.vault_authority,
        vault_authority_bump: ctx.vault_authority_bump,
    }
}

} // verus!
