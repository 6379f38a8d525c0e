//! The plain quantities of the simulated chain.

use vstd::prelude::*;
use vstd::slice::slice_to_vec;

verus! {

/// The balance of an account.
pub type Balance = u128;

/// The number of a block.
pub type BlockNumber = u32;

/// The timestamp of a block.
pub type BlockTimestamp = u64;

/// The identifier of an account or contract: a byte string, compared byte by
/// byte.
#[derive(Debug, PartialEq, Eq)]
pub struct AccountId(pub Vec<u8>);

impl AccountId {
    /// The bytes of the identifier.
    pub open spec fn view(&self) -> Seq<u8> {
        self.0@
    }

    /// Creates the identifier that holds `bytes`.
    pub fn from_bytes(bytes: &[u8]) -> (id: Self)
        ensures
            id@ == bytes@,
    {
        AccountId(slice_to_vec(bytes))
    }

    /// Returns the bytes of the identifier.
    pub fn as_bytes(&self) -> (bytes: &[u8])
        ensures
            bytes@ == self@,
    {
        self.0.as_slice()
    }
}

impl Clone for AccountId {
    fn clone(&self) -> (copy: Self)
        ensures
            copy@ == self@,
    {
        AccountId(slice_to_vec(self.0.as_slice()))
    }
}

} // verus!
