//! Termination: the end of a vault.

use vstd::prelude::*;
use crate::custody::{Authority, CustodyCall, Holder};
use crate::error::VaultError;
use crate::identity::Identity;
use crate::state::vault::Vault;

verus! {

#[derive(Clone, Debug, PartialEq, Eq)]
pub struct TerminateVault {
    pub vault: Vault,
    /// Who asks for the termination.
    pub leader: Identity,
    /// What the vault's custody account of the payment asset holds.
    pub custody_balance: u64,
}

/// The vault after termination: every total and the price are zero.
pub open spec fn terminated(vault: Vault) -> Vault {
    vault.with_totals(0, 0, 0, 0)
}

/// The custody call of a termination: the whole custody balance goes to the
/// backend wallet.
pub open spec fn terminate_calls(vault: Vault, custody_balance: u64) -> Seq<CustodyCall> {
    seq![
        CustodyCall::Transfer {
            from: Holder::Vault,
            to: Holder::Backend,
            authority: Authority::VaultAuthority { bump: vault.vault_authority_bump },
            amount: custody_balance,
        },
    ]
}

/// Terminates the vault. Only the vault's leader may.
///
/// Whatever the vault held before, its value, principal, bond supply and
/// bond price are zero afterwards, and it stays terminated for good.
pub fn terminate_vault(ctx: &mut TerminateVault) -> (outcome: Result<
    Vec<CustodyCall>,
    VaultError,
>)
    ensures
        final(ctx).leader == old(ctx).leader,
        final(ctx).custody_balance == old(ctx).custody_balance,
        old(ctx).leader == old(ctx).vault.leader ==> {
            &&& outcome.is_ok()
            &&& outcome.unwrap()@ == terminate_calls(old(ctx).vault, old(ctx).custody_balance)
            &&& final(ctx).vault == terminated(old(ctx).vault)
            &&& final(ctx).vault.tvl == 0
            &&& final(ctx).vault.deposit_value == 0
            &&& final(ctx).vault.bond_supply == 0
            &&& final(ctx).vault.bond_price == 0
        },
        old(ctx).leader != old(ctx).vault.leader ==> outcome == Err::<Vec<CustodyCall>, VaultError>(
            VaultError::Unauthorized,
        ) && *final(ctx) == *old(ctx),
        old(ctx).vault.covers_principal() ==> final(ctx).vault.covers_principal(),
        old(ctx).vault.is_terminated() ==> final(ctx).vault.is_terminated(),
{
    if !ctx.vault.is_leader(&ctx.leader) {
        return Err(VaultError::Unauthorized);
    }
    let mut calls: Vec<CustodyCall> = Vec::new();
    calls.push(ctx.vault.transfer_tokens(Holder::Vault, Holder::Backend, ctx.custody_balance));
    ctx.vault.tvl = 0;
    ctx.vault.deposit_value = 0;
    ctx.vault.bond_price = 0;
    ctx.vault.bond_supply = 0;
    proof {
        assert(calls@ =~= terminate_calls(old(ctx).vault, old(ctx).custody_balance));
    }
    Ok(calls)
}

} // verus!
