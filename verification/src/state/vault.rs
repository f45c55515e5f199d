//! The pool-wide ledger record of one vault.

use vstd::prelude::*;
use crate::custody::{Authority, CustodyCall, Holder};
use crate::identity::Identity;
use crate::pricing::bond_price_of;

verus! {

/// The ledger of one vault. A leader has one vault.
#[derive(Clone, Debug, PartialEq, Eq)]
pub struct Vault {
    /// Names the trading strategy; set with the first deposit.
    pub strategy_id: String,
    /// Value of one bond share.
    pub bond_price: u64,
    /// Bond shares outstanding.
    pub bond_supply: u64,
    /// Total value locked, in the payment asset.
    pub tvl: u64,
    /// Principal owed to the depositors.
    pub deposit_value: u64,
    /// The account that controls the vault.
    pub leader: Identity,
    /// Stops the strategy's operations, not deposits and withdrawals.
    pub is_trading_paused: bool,
    /// May fund the setup, may not move the depositors' funds.
    pub backend_wallet: Identity,
    /// Authorises custody movements for the vault.
    pub vault_authority: Identity,
    /// Completes the derivation of `vault_authority`.
    pub vault_authority_bump: u8,
}

/// Where a vault stands in its life. A vault that was not created yet has no
/// record, and so no phase.
#[derive(Clone, Copy, Debug, PartialEq, Eq, Structural)]
pub enum Phase {
    Active,
    Paused,
    Terminated,
}

impl Vault {
    /// A terminated vault is one without shares whose bond price is zero. A
    /// vault in use without shares is at the genesis price.
    pub open spec fn is_terminated(self) -> bool {
        self.bond_price == 0 && self.bond_supply == 0
    }

    /// The phase of the vault.
    pub open spec fn phase_of(self) -> Phase {
        if self.is_terminated() {
            Phase::Terminated
        } else if self.is_trading_paused {
            Phase::Paused
        } else {
            Phase::Active
        }
    }

    /// The vault's value covers the principal it owes.
    pub open spec fn covers_principal(self) -> bool {
        self.tvl >= self.deposit_value
    }

    /// The bond price is the one that the totals give.
    pub open spec fn priced(self) -> bool {
        self.bond_price == bond_price_of(
            self.deposit_value as int,
            self.tvl as int,
            self.bond_supply as int,
        )
    }

    /// A vault without shares holds nothing.
    pub open spec fn empty_without_shares(self) -> bool {
        self.bond_supply == 0 ==> self.deposit_value == 0 && self.tvl == 0
    }

    /// A vault in use: not terminated, its value covers the principal, and
    /// its bond price follows from its totals.
    pub open spec fn well_formed(self) -> bool {
        &&& !self.is_terminated()
        &&& self.covers_principal()
        &&& self.priced()
    }

    /// This vault with other totals and another price.
    pub open spec fn with_totals(
        self,
        tvl: int,
        deposit_value: int,
        bond_supply: int,
        bond_price: int,
    ) -> Vault {
        Vault {
            tvl: tvl as u64,
            deposit_value: deposit_value as u64,
            bond_supply: bond_supply as u64,
            bond_price: bond_price as u64,
            ..self
        }
    }

    /// Whether the vault was terminated.
    pub fn has_ended(&self) -> (yes: bool)
        ensures
            yes == self.is_terminated(),
    {
        self.bond_price == 0 && self.bond_supply == 0
    }

    /// The phase of the vault.
    pub fn phase(&self) -> (phase: Phase)
        ensures
            phase == self.phase_of(),
    {
        if self.has_ended() {
            Phase::Terminated
        } else if self.is_trading_paused {
            Phase::Paused
        } else {
            Phase::Active
        }
    }

    /// Whether `caller` is the vault's leader.
    pub fn is_leader(&self, caller: &Identity) -> (yes: bool)
        ensures
            yes == (*caller == self.leader),
    {
        self.leader.is(caller)
    }

    /// The custody call that moves `amount` of the payment asset out of an
    /// account that the vault's authority controls.
    pub fn transfer_tokens(&self, from: Holder, to: Holder, amount: u64) -> (call: CustodyCall)
        ensures
            call == (CustodyCall::Transfer {
                from,
                to,
                authority: Authority::VaultAuthority { bump: self.vault_authority_bump },
                amount,
            }),
    {
        CustodyCall::Transfer {
            from,
            to,
            authority: Authority::VaultAuthority { bump: self.vault_authority_bump },
            amount,
        }
    }

    /// The custody call that moves `amount` of the payment asset out of a
    /// user's account, on that user's own signature.
    pub fn transfer_tokens_from_user(&self, from: Holder, to: Holder, amount: u64) -> (call:
        CustodyCall)
        ensures
            call == (CustodyCall::Transfer { from, to, authority: Authority::Owner, amount }),
    {
        CustodyCall::Transfer { from, to, authority: Authority::Owner, amount }
    }
}

} // verus!
