//! Identities of the accounts that act on a vault.

use vstd::prelude::*;

verus! {

/// The 32 bytes that name an account.
///
/// The engine only ever asks whether two identities are the same.
#[derive(Clone, Copy, Debug, PartialEq, Eq, Hash)]
pub struct Identity {
    pub bytes: [u8; 32],
}

impl Identity {
    /// Whether `self` and `other` name the same account.
    pub fn is(&self, other: &Identity) -> (same: bool)
        ensures
            same == (*self == *other),
    {
        let mut at: usize = 0;
        while at < 32
            invariant
                at <= 32,
                forall|i: int| 0 <= i < at ==> self.bytes[i] == other.bytes[i],
            decreases 32 - at,
        {
            if self.bytes[at] != other.bytes[at] {
                return false;
            }
            at = at + 1;
        }
        assert(self.bytes =~= other.bytes);
        true
    }
}

} // verus!
