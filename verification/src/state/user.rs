//! The position of one depositor in one vault.

use vstd::prelude::*;

verus! {

/// What a depositor holds. The record is never removed: a depositor who has
/// withdrawn everything keeps it with zero amounts.
#[derive(Clone, Copy, Debug, PartialEq, Eq, Structural)]
pub struct User {
    /// Bond shares owned.
    pub bond_amount: u64,
    /// Principal owed to the depositor.
    pub deposit_value: u64,
    /// Time of the latest deposit, in seconds; the lock period runs from it.
    pub deposit_time: i64,
}

impl User {
    /// The record of a depositor who holds nothing yet.
    pub fn new() -> (user: User)
        ensures
            user == (User { bond_amount: 0, deposit_value: 0, deposit_time: 0 }),
    {
        User { bond_amount: 0, deposit_value: 0, deposit_time: 0 }
    }
}

/// The bond shares of all the given positions together.
pub open spec fn total_bonds(users: Seq<User>) -> int
    decreases users.len(),
{
    if users.len() == 0 {
        0
    } else {
        total_bonds(users.drop_last()) + users.last().bond_amount
    }
}

/// Positions without shares hold no shares together.
pub proof fn lemma_total_bonds_of_none(users: Seq<User>)
    requires
        forall|i: int| 0 <= i < users.len() ==> users[i].bond_amount == 0,
    ensures
        total_bonds(users) == 0,
    decreases users.len(),
{
    if users.len() > 0 {
        lemma_total_bonds_of_none(users.drop_last());
    }
}

/// No position holds more shares than all of them together.
pub proof fn lemma_total_bonds_bounds(users: Seq<User>, at: int)
    requires
        0 <= at < users.len(),
    ensures
        0 <= users[at].bond_amount <= total_bonds(users),
    decreases users.len(),
{
    if users.len() > 1 {
        if at == users.len() - 1 {
            lemma_total_bonds_bounds(users.drop_last(), 0);
        } else {
            lemma_total_bonds_bounds(users.drop_last(), at);
        }
    } else {
        assert(total_bonds(users.drop_last()) == 0);
    }
}

/// Replacing one position changes the total by what that position gained.
pub proof fn lemma_total_bonds_update(users: Seq<User>, at: int, user: User)
    requires
        0 <= at < users.len(),
    ensures
        total_bonds(users.update(at, user)) == total_bonds(users) - users[at].bond_amount
            + user.bond_amount,
    decreases users.len(),
{
    let updated = users.update(at, user);
    if at == users.len() - 1 {
        assert(updated.drop_last() =~= users.drop_last());
    } else {
        assert(updated.drop_last() =~= users.drop_last().update(at, user));
        lemma_total_bonds_update(users.drop_last(), at, user);
    }
}

} // verus!
