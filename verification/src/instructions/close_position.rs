//! Closing one depositor's position on the leader's order.

use vstd::prelude::*;
use crate::custody::{CustodyCall, Holder};
use crate::error::VaultError;
use crate::identity::Identity;
use crate::instructions::close_positions::{admit_strategy, strategy_refusal};
use crate::instructions::withdraw::{payout_call, withdrawal_fee};
use crate::pricing::{bond_price, bond_price_of, performance_fee};
use crate::state::user::User;
use crate::state::vault::Vault;

verus! {

/// The records that the closing of a position works on.
#[derive(Clone, Debug, PartialEq, Eq)]
pub struct ClosePosition {
    pub vault: Vault,
    /// The position that is closed.
    pub user: User,
    /// Who orders the closing.
    pub leader: Identity,
    /// Whose position `user` is.
    pub depositor: Identity,
}

/// The bond price after the position `user` is closed.
pub open spec fn price_after_close(vault: Vault, user: User, of_leader: bool) -> int {
    bond_price_of(
        vault.deposit_value - user.deposit_value,
        vault.tvl - user.deposit_value - withdrawal_fee(vault, of_leader),
        vault.bond_supply - user.bond_amount,
    )
}

/// The vault holds what the position takes out of it.
pub open spec fn close_fits(vault: Vault, user: User, of_leader: bool) -> bool {
    &&& user.bond_amount <= vault.bond_supply
    &&& user.deposit_value <= vault.deposit_value
}

/// Why the closing of a position is refused, if it is.
pub open spec fn close_position_error(
    vault: Vault,
    user: User,
    by_leader: bool,
    of_leader: bool,
) -> Option<VaultError> {
    if strategy_refusal(vault, by_leader).is_some() {
        strategy_refusal(vault, by_leader)
    } else if !vault.covers_principal() {
        Some(VaultError::InvariantViolated)
    } else if !close_fits(vault, user, of_leader) {
        Some(VaultError::ArithmeticError)
    } else {
        None
    }
}

/// The vault after the position `user` is closed.
pub open spec fn closed_vault(vault: Vault, user: User, of_leader: bool) -> Vault {
    vault.with_totals(
        vault.tvl - user.deposit_value - withdrawal_fee(vault, of_leader),
        vault.deposit_value - user.deposit_value,
        vault.bond_supply - user.bond_amount,
        price_after_close(vault, user, of_leader),
    )
}

/// A closed position: nothing is owed and no share is held. The time of the
/// last deposit stays on record.
pub open spec fn closed_user(user: User) -> User {
    User { deposit_value: 0, bond_amount: 0, deposit_time: user.deposit_time }
}

/// The custody calls of a closing: the payment of the whole principal, for
/// the leader's own position the payment of the fee, then the burn of all the
/// position's shares.
pub open spec fn close_position_calls(vault: Vault, user: User, of_leader: bool) -> Seq<
    CustodyCall,
> {
    let burn = CustodyCall::Burn { from: Holder::Depositor, amount: user.bond_amount };
    if of_leader {
        seq![
            payout_call(vault, user.deposit_value as int),
            payout_call(vault, withdrawal_fee(vault, true)),
            burn,
        ]
    } else {
        seq![payout_call(vault, user.deposit_value as int), burn]
    }
}

/// Closes the position `ctx.user` of `ctx.depositor` on the order of
/// `ctx.leader`.
///
/// Only the vault's leader may order it, and only while the vault is active.
/// The whole principal of the position is paid out and all its shares are
/// retired, whatever its lock period; the vault's totals go down by the same
/// amounts and the bond is repriced. If the position is the leader's own, the
/// performance fee is paid out of the vault's value as well. A refused closing
/// changes nothing.
pub fn close_position(ctx: &mut ClosePosition) -> (outcome: Result<Vec<CustodyCall>, VaultError>)
    ensures
        final(ctx).leader == old(ctx).leader,
        final(ctx).depositor == old(ctx).depositor,
        match close_position_error(
            old(ctx).vault,
            old(ctx).user,
            old(ctx).leader == old(ctx).vault.leader,
            old(ctx).depositor == old(ctx).vault.leader,
        ) {
            Some(e) => outcome == Err::<Vec<CustodyCall>, VaultError>(e) && *final(ctx) == *old(ctx),
            None => {
                &&& outcome.is_ok()
                &&& outcome.unwrap()@ == close_position_calls(
                    old(ctx).vault,
                    old(ctx).user,
                    old(ctx).depositor == old(ctx).vault.leader,
                )
                &&& final(ctx).vault == closed_vault(
                    old(ctx).vault,
                    old(ctx).user,
                    old(ctx).depositor == old(ctx).vault.leader,
                )
                &&& final(ctx).user == closed_user(old(ctx).user)
            },
        },
        old(ctx).vault.covers_principal() ==> final(ctx).vault.covers_principal(),
        old(ctx).vault.is_terminated() ==> final(ctx).vault.is_terminated(),
        outcome.is_ok() ==> final(ctx).vault.well_formed(),
        outcome.is_ok() ==> old(ctx).vault.bond_supply - final(ctx).vault.bond_supply == old(
            ctx
        ).user.bond_amount - final(ctx).user.bond_amount,
{
    match admit_strategy(&ctx.vault, &ctx.leader) {
        Err(e) => { return Err(e); },
        Ok(_) => {},
    }
    let profit_fee = match performance_fee(ctx.vault.deposit_value, ctx.vault.tvl) {
        Some(fee) => fee,
        None => { return Err(VaultError::InvariantViolated); },
    };
    let of_leader = ctx.vault.is_leader(&ctx.depositor);
    let fee: u64 = if of_leader { profit_fee } else { 0 };
    let principal = ctx.user.deposit_value;
    let bond_amount = ctx.user.bond_amount;
    if bond_amount > ctx.vault.bond_supply || principal > ctx.vault.deposit_value {
        return Err(VaultError::ArithmeticError);
    }
    let tvl: u64 = ctx.vault.tvl - fee - principal;
    let deposit_value: u64 = ctx.vault.deposit_value - principal;
    let bond_supply: u64 = ctx.vault.bond_supply - bond_amount;
    let new_price = match bond_price(deposit_value, tvl, bond_supply) {
        Some(p) => p,
        None => { return Err(VaultError::ArithmeticError); },
    };
    let mut calls: Vec<CustodyCall> = Vec::new();
    calls.push(ctx.vault.transfer_tokens(Holder::Vault, Holder::Depositor, principal));
    if of_leader {
        calls.push(ctx.vault.transfer_tokens(Holder::Vault, Holder::Depositor, fee));
    }
    calls.push(CustodyCall::Burn { from: Holder::Depositor, amount: bond_amount });

    ctx.vault.deposit_value = deposit_value;
    ctx.vault.tvl = tvl;
    ctx.vault.bond_supply = bond_supply;
    ctx.vault.bond_price = new_price;
    ctx.user.deposit_value = 0;
    ctx.user.bond_amount = 0;
    proof {
        assert(calls@ =~= close_position_calls(old(ctx).vault, old(ctx).user, of_leader));
    }
    Ok(calls)
}

} // verus!
