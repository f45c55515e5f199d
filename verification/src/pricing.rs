//! The bond pricing engine: what one share is worth and how many shares an
//! amount of the payment asset buys.
//!
//! All quantities are whole numbers of base units. Every division rounds
//! down, so that no more shares are issued than the payment justifies.

use vstd::prelude::*;
use vstd::arithmetic::div_mod::{
    lemma_div_pos_is_pos,
    lemma_fundamental_div_mod,
    lemma_fundamental_div_mod_converse_div,
    lemma_mod_bound,
};
use crate::constants::{DEPOSITOR_PROFIT_PERCENT, GENESIS_BOND_PRICE, PERFORMANCE_FEE_DIVISOR};

verus! {

/// Ten to the power `decimals`: the number of base units in one share of a
/// token that counts `decimals` decimal places.
pub open spec fn share_scale(decimals: nat) -> int
    decreases decimals,
{
    if decimals == 0 {
        1
    } else {
        10 * share_scale((decimals - 1) as nat)
    }
}

/// Shares that `amount` buys, or that it retires, at `price`:
/// `floor(amount / price) * 10^decimals`.
pub open spec fn bond_quantity(amount: int, price: int, decimals: nat) -> int
    recommends
        amount >= 0,
        price > 0,
{
    (amount / price) * share_scale(decimals)
}

/// What the vault holds beyond the principal it owes.
pub open spec fn profit_of(deposit_value: int, tvl: int) -> int
    recommends
        tvl >= deposit_value,
{
    tvl - deposit_value
}

/// The leader's cut of the profit: a tenth of it.
pub open spec fn performance_fee_of(deposit_value: int, tvl: int) -> int
    recommends
        tvl >= deposit_value,
{
    profit_of(deposit_value, tvl) / (PERFORMANCE_FEE_DIVISOR as int)
}

/// The value that the shares stand for: the principal and 80% of the profit.
pub open spec fn accruing_value_of(deposit_value: int, tvl: int) -> int
    recommends
        tvl >= deposit_value,
{
    deposit_value + profit_of(deposit_value, tvl) * (DEPOSITOR_PROFIT_PERCENT as int) / 100
}

/// The price of one share: the genesis price while no share exists, else the
/// accruing value divided by the number of shares.
pub open spec fn bond_price_of(deposit_value: int, tvl: int, bond_supply: int) -> int
    recommends
        tvl >= deposit_value,
        bond_supply >= 0,
{
    if bond_supply == 0 {
        GENESIS_BOND_PRICE as int
    } else {
        accruing_value_of(deposit_value, tvl) / bond_supply
    }
}

/// The scale grows with the number of decimal places, and is at least one.
pub proof fn lemma_share_scale_grows(fewer: nat, more: nat)
    requires
        fewer <= more,
    ensures
        1 <= share_scale(fewer) <= share_scale(more),
    decreases more,
{
    if fewer == 0 {
        if more > 0 {
            lemma_share_scale_grows(0, (more - 1) as nat);
        }
    } else {
        lemma_share_scale_grows((fewer - 1) as nat, (more - 1) as nat);
    }
}

/// The accruing value lies between the principal and the vault's value.
pub proof fn lemma_accruing_value_bounds(deposit_value: int, tvl: int)
    requires
        0 <= deposit_value <= tvl,
    ensures
        deposit_value <= accruing_value_of(deposit_value, tvl) <= tvl,
{
}

/// A quantity of shares is never negative, and nothing buys no share.
pub proof fn lemma_bond_quantity_nonnegative(amount: int, price: int, decimals: nat)
    requires
        amount >= 0,
        price > 0,
    ensures
        bond_quantity(amount, price, decimals) >= 0,
        amount == 0 ==> bond_quantity(amount, price, decimals) == 0,
{
    lemma_share_scale_grows(0, decimals);
    assert(amount / price >= 0) by (nonlinear_arith)
        requires
            amount >= 0,
            price > 0,
    ;
    assert(amount == 0 ==> amount / price == 0) by (nonlinear_arith)
        requires
            price > 0,
    ;
    assert((amount / price) * share_scale(decimals) >= 0) by (nonlinear_arith)
        requires
            amount / price >= 0,
            share_scale(decimals) >= 1,
    ;
    assert(amount / price == 0 ==> (amount / price) * share_scale(decimals) == 0)
        by (nonlinear_arith);
}

/// Rounding is in the vault's favour: the shares given for an amount are
/// worth no more than the amount.
pub proof fn lemma_shares_cost_no_more(amount: int, price: int, decimals: nat)
    requires
        amount >= 0,
        price > 0,
    ensures
        bond_quantity(amount, price, decimals) * price <= amount * share_scale(decimals),
{
    lemma_share_scale_grows(0, decimals);
    lemma_fundamental_div_mod(amount, price);
    lemma_mod_bound(amount, price);
    let whole = amount / price;
    let scale = share_scale(decimals);
    assert(whole * price <= amount) by (nonlinear_arith)
        requires
            amount == price * whole + amount % price,
            amount % price >= 0,
    ;
    assert((whole * scale) * price <= amount * scale) by (nonlinear_arith)
        requires
            whole * price <= amount,
            scale >= 1,
    ;
}

/// The price of a share is never negative and never above the larger of the
/// vault's value and the genesis price.
pub proof fn lemma_bond_price_bounds(deposit_value: int, tvl: int, bond_supply: int)
    requires
        0 <= deposit_value <= tvl,
        bond_supply >= 0,
    ensures
        0 <= bond_price_of(deposit_value, tvl, bond_supply),
        bond_price_of(deposit_value, tvl, bond_supply) <= tvl || bond_price_of(
            deposit_value,
            tvl,
            bond_supply,
        ) == GENESIS_BOND_PRICE,
{
    lemma_accruing_value_bounds(deposit_value, tvl);
    let value = accruing_value_of(deposit_value, tvl);
    if bond_supply > 0 {
        assert(0 <= value / bond_supply <= value) by (nonlinear_arith)
            requires
                value >= 0,
                bond_supply > 0,
        ;
    }
}

/// A number that lies between two neighbouring multiples of `d` has the
/// smaller multiple's factor as its quotient by `d`.
pub proof fn lemma_quotient_between(x: int, d: int, q: int)
    requires
        d > 0,
        q * d <= x < (q + 1) * d,
    ensures
        x / d == q,
{
    assert((q + 1) * d == q * d + d) by (nonlinear_arith);
    lemma_fundamental_div_mod_converse_div(x, d, q, x - q * d);
}

/// Whole shares bought at the price `value / supply` are as many as the same
/// amount retires at the price that the purchase leaves behind, and that price
/// is no lower.
pub proof fn lemma_purchase_keeps_quantity(value: int, supply: int, amount: int)
    requires
        value >= 0,
        supply >= 1,
        amount >= 0,
        value / supply >= 1,
    ensures
        (value + amount) / (supply + amount / (value / supply)) >= value / supply,
        amount / ((value + amount) / (supply + amount / (value / supply))) == amount / (value
            / supply),
{
    let price = value / supply;
    let r = value % supply;
    lemma_fundamental_div_mod(value, supply);
    lemma_mod_bound(value, supply);
    let k = amount / price;
    let t = amount % price;
    lemma_fundamental_div_mod(amount, price);
    lemma_mod_bound(amount, price);
    lemma_div_pos_is_pos(amount, price);
    let later_supply = supply + k;
    let later_value = value + amount;
    let later_price = later_value / later_supply;
    let u = later_value % later_supply;
    lemma_fundamental_div_mod(later_value, later_supply);
    lemma_mod_bound(later_value, later_supply);
    assert(later_value >= price * later_supply) by (nonlinear_arith)
        requires
            later_value == supply * price + r + price * k + t,
            later_supply == supply + k,
            r >= 0,
            t >= 0,
    ;
    assert(later_price >= price) by (nonlinear_arith)
        requires
            later_value == later_supply * later_price + u,
            0 <= u < later_supply,
            later_value >= price * later_supply,
    ;
    assert(k * later_price <= amount) by {
        if later_price == price {
            assert(k * price <= amount) by (nonlinear_arith)
                requires
                    amount == price * k + t,
                    t >= 0,
            ;
        } else {
            assert(k * later_price <= amount) by (nonlinear_arith)
                requires
                    (supply + k) * later_price + u == supply * price + r + amount,
                    u >= 0,
                    r < supply,
                    later_price >= price + 1,
                    supply >= 1,
            ;
        }
    }
    assert(amount < (k + 1) * later_price) by (nonlinear_arith)
        requires
            amount == price * k + t,
            t < price,
            price <= later_price,
            k >= 0,
    ;
    lemma_quotient_between(amount, later_price, k);
}

/// Whole shares bought for `amount` at `price` from a vault that holds
/// nothing are as many as the same amount retires at the price that the
/// purchase leaves behind, and that price is no lower.
pub proof fn lemma_first_purchase_keeps_quantity(amount: int, price: int)
    requires
        price >= 1,
        amount / price >= 1,
    ensures
        amount / (amount / price) >= price,
        amount / (amount / (amount / price)) == amount / price,
{
    let k = amount / price;
    let t = amount % price;
    lemma_fundamental_div_mod(amount, price);
    lemma_mod_bound(amount, price);
    let later_price = amount / k;
    let u = amount % k;
    lemma_fundamental_div_mod(amount, k);
    lemma_mod_bound(amount, k);
    assert(later_price >= price) by (nonlinear_arith)
        requires
            amount == k * later_price + u,
            0 <= u < k,
            amount == price * k + t,
            t >= 0,
    ;
    assert(k * later_price <= amount) by (nonlinear_arith)
        requires
            amount == k * later_price + u,
            u >= 0,
    ;
    assert(amount < (k + 1) * later_price) by (nonlinear_arith)
        requires
            amount == price * k + t,
            t < price,
            price <= later_price,
            k >= 1,
    ;
    lemma_quotient_between(amount, later_price, k);
}

/// `10^decimals`, unless it passes the largest `u64`.
pub fn scale_for(decimals: u8) -> (scale: Option<u64>)
    ensures
        scale.is_some() <==> share_scale(decimals as nat) <= u64::MAX,
        scale.is_some() ==> scale.unwrap() == share_scale(decimals as nat),
{
    let mut acc: u64 = 1;
    let mut done: u8 = 0;
    while done < decimals
        invariant
            done <= decimals,
            acc == share_scale(done as nat),
        decreases decimals - done,
    {
        match acc.checked_mul(10) {
            Some(next) => {
                acc = next;
            },
            None => {
                proof {
                    lemma_share_scale_grows((done + 1) as nat, decimals as nat);
                }
                return None;
            },
        }
        done = done + 1;
    }
    Some(acc)
}

/// Shares for `amount` at `price` in a token of `decimals` decimal places.
///
/// `None` when the price is zero or the quantity passes the largest `u64`.
pub fn bond_amount_for(amount: u64, price: u64, decimals: u8) -> (shares: Option<u64>)
    ensures
        shares.is_some() <==> price > 0 && bond_quantity(amount as int, price as int, decimals as nat)
            <= u64::MAX,
        shares.is_some() ==> shares.unwrap() == bond_quantity(
            amount as int,
            price as int,
            decimals as nat,
        ),
{
    if price == 0 {
        return None;
    }
    let whole: u64 = amount / price;
    if whole == 0 {
        assert(0 * share_scale(decimals as nat) == 0);
        return Some(0);
    }
    match scale_for(decimals) {
        Some(scale) => whole.checked_mul(scale),
        None => {
            assert(whole * share_scale(decimals as nat) >= share_scale(decimals as nat))
                by (nonlinear_arith)
                requires
                    whole >= 1,
                    share_scale(decimals as nat) >= 0,
            ;
            None
        },
    }
}

/// The leader's performance fee, `(tvl - deposit_value) / 10`.
///
/// `None` when the vault's value is below the principal.
pub fn performance_fee(deposit_value: u64, tvl: u64) -> (fee: Option<u64>)
    ensures
        fee.is_some() <==> tvl >= deposit_value,
        fee.is_some() ==> fee.unwrap() == performance_fee_of(deposit_value as int, tvl as int),
{
    if tvl < deposit_value {
        None
    } else {
        Some((tvl - deposit_value) / PERFORMANCE_FEE_DIVISOR)
    }
}

/// The price of one share for the given totals.
///
/// `None` when the vault's value is below the principal.
pub fn bond_price(deposit_value: u64, tvl: u64, bond_supply: u64) -> (price: Option<u64>)
    ensures
        price.is_some() <==> tvl >= deposit_value,
        price.is_some() ==> price.unwrap() == bond_price_of(
            deposit_value as int,
            tvl as int,
            bond_supply as int,
        ),
{
    if tvl < deposit_value {
        return None;
    }
    if bond_supply == 0 {
        return Some(GENESIS_BOND_PRICE);
    }
    let profit: u64 = tvl - deposit_value;
    let percent: u128 = DEPOSITOR_PROFIT_PERCENT as u128;
    assert(percent == 80);
    let accrued: u128 = (profit as u128) * percent / 100;
    let value: u128 = (deposit_value as u128) + accrued;
    proof {
        lemma_accruing_value_bounds(deposit_value as int, tvl as int);
    }
    let per_share: u128 = value / (bond_supply as u128);
    Some(per_share as u64)
}

} // verus!
