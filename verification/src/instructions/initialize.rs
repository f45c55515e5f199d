//! Creation of a vault together with its first deposit.

use vstd::prelude::*;
use crate::custody::CustodyCall;
use crate::error::VaultError;
use crate::identity::Identity;
use crate::instructions::deposit::deposit_calls;
use crate::instructions::init_deposit::{
    init_deposit,
    init_deposit_error,
    opened_user,
    opened_vault,
    InitDeposit,
    InitDepositParams,
};
use crate::instructions::initialize_vault::created_vault;
use crate::state::user::User;
use crate::state::vault::Vault;

verus! {

/// The identities that a new vault is bound to, and the leader's position.
#[derive(Clone, Copy, Debug, PartialEq, Eq)]
pub struct InitializeVault {
    /// Who creates the vault and controls it from then on.
    pub leader: Identity,
    /// The leader's own position in the new vault.
    pub user: User,
    pub backend_wallet: Identity,
    pub vault_authority: Identity,
    /// Completes the derivation of `vault_authority`.
    pub vault_authority_bump: u8,
    /// Decimal places of the bond share token.
    pub mint_decimals: u8,
}

#[derive(Clone, Debug, PartialEq, Eq)]
pub struct InitializeVaultParams {
    /// Names the trading strategy, for good.
    pub strategy_id: String,
    /// What the leader pays, in the payment asset.
    pub initial_deposit: u64,
}

/// The identities of `ctx`, as the creation of the record takes them.
pub open spec fn binding_of(ctx: InitializeVault) -> crate::instructions::initialize_vault::InitializeVault {
    crate::instructions::initialize_vault::InitializeVault {
        leader: ctx.leader,
        backend_wallet: ctx.backend_wallet,
        vault_authority: ctx.vault_authority,
        vault_authority_bump: ctx.vault_authority_bump,
    }
}

/// Creates a vault that `ctx.leader` leads and takes the leader's first
/// deposit at time `now`.
///
/// With a deposit below `MIN_INITIAL_DEPOSIT` no vault is created. Otherwise
/// the new vault holds exactly that deposit, under the strategy's name, and
/// the leader's position holds the shares issued for it at the genesis price.
/// Without a vault, `ctx` stays as it was.
pub fn initialize_vault(ctx: &mut InitializeVault, params: InitializeVaultParams, now: i64) -> (outcome:
    Result<(Vault, Vec<CustodyCall>), VaultError>)
    ensures
        final(ctx).leader == old(ctx).leader,
        final(ctx).backend_wallet == old(ctx).backend_wallet,
        final(ctx).vault_authority == old(ctx).vault_authority,
        final(ctx).vault_authority_bump == old(ctx).vault_authority_bump,
        final(ctx).mint_decimals == old(ctx).mint_decimals,
        match init_deposit_error(
            created_vault(binding_of(*old(ctx)), params.strategy_id),
            true,
            old(ctx).mint_decimals,
            params.initial_deposit,
        ) {
            Some(e) => outcome == Err::<(Vault, Vec<CustodyCall>), VaultError>(e) && *final(ctx)
                == *old(ctx),
            None => {
                &&& outcome.is_ok()
                &&& outcome.unwrap().0 == opened_vault(
                    created_vault(binding_of(*old(ctx)), params.strategy_id),
                    params.strategy_id,
                    old(ctx).mint_decimals,
                    params.initial_deposit,
                )
                &&& outcome.unwrap().1@ == deposit_calls(
                    created_vault(binding_of(*old(ctx)), params.strategy_id),
                    old(ctx).mint_decimals,
                    params.initial_deposit,
                )
                &&& final(ctx).user == opened_user(
                    created_vault(binding_of(*old(ctx)), params.strategy_id),
                    old(ctx).mint_decimals,
                    params.initial_deposit,
                    now,
                )
                &&& outcome.unwrap().0.well_formed()
                &&& outcome.unwrap().0.bond_supply == final(ctx).user.bond_amount
            },
        },
{
    let binding = crate::instructions::initialize_vault::InitializeVault {
        leader: ctx.leader,
        backend_wallet: ctx.backend_wallet,
        vault_authority: ctx.vault_authority,
        vault_authority_bump: ctx.vault_authority_bump,
    };
    let vault = crate::instructions::initialize_vault::initialize_vault(&binding);
    let mut opening = InitDeposit {
        vault,
        user: ctx.user,
        leader: ctx.leader,
        mint_decimals: ctx.mint_decimals,
    };
    let first = InitDepositParams {
        strategy_id: params.strategy_id,
        initial_deposit: params.initial_deposit,
    };
    match init_deposit(&mut opening, first, now) {
        Ok(calls) => {
            ctx.user = opening.user;
            Ok((opening.vault, calls))
        },
        Err(e) => Err(e),
    }
}

} // verus!
