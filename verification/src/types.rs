//! Identifiers and chain positions shared by all operations.

use vstd::prelude::*;

verus! {

/// The network that the account lives on.
#[derive(Clone, Copy, Debug, PartialEq, Eq, Structural)]
pub enum Network {
    Main,
    Test,
}

/// The wallet store's identifier of an account. The library never looks inside.
#[derive(Clone, Copy, Debug, PartialEq, Eq, Structural)]
pub struct AccountId {
    pub raw: u128,
}

/// The identifier of a transaction: its 32-byte hash.
#[derive(Clone, Copy, Debug, PartialEq, Eq)]
pub struct TransactionId {
    pub bytes: [u8; 32],
}

impl TransactionId {
    /// Tells whether two identifiers are the same.
    pub fn same_as(&self, other: &TransactionId) -> (same: bool)
        ensures
            same == (*self == *other),
    {
        let mut i: usize = 0;
        while i < 32
            invariant
                i <= 32,
                forall|j: int| 0 <= j < i ==> self.bytes[j] == other.bytes[j],
            decreases 32 - i,
        {
            if self.bytes[i] != other.bytes[i] {
                return false;
            }
            i = i + 1;
        }
        assert(self.bytes =~= other.bytes);
        true
    }

    /// Tells whether the identifier is one of `ids`.
    pub fn is_among(&self, ids: &Vec<TransactionId>) -> (found: bool)
        ensures
            found == ids@.contains(*self),
    {
        let mut i: usize = 0;
        while i < ids.len()
            invariant
                i <= ids.len(),
                forall|j: int| 0 <= j < i ==> ids@[j] != *self,
            decreases ids.len() - i,
        {
            if ids[i].same_as(self) {
                return true;
            }
            i = i + 1;
        }
        false
    }
}

/// A block as the chain index names it.
#[derive(Clone, Debug, PartialEq, Eq)]
pub struct BlockId {
    pub height: u64,
    pub hash: Vec<u8>,
}

} // verus!
