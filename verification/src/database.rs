//! The ledger of balances and the key/value storage of each contract.

use vstd::prelude::*;
use vstd::slice::slice_to_vec;
use crate::byte_map::ByteMap;
use crate::types::Balance;

verus! {

/// What `account` owns according to `balances`: its entry, or nothing where
/// it has none.
pub open spec fn balance_in(balances: Map<Seq<u8>, Balance>, account: Seq<u8>) -> Balance {
    if balances.contains_key(account) {
        balances[account]
    } else {
        0
    }
}

/// The chain state a contract can observe: what each account owns, and what
/// each contract has stored.
pub struct Database {
    balances: ByteMap<Balance>,
    storage: ByteMap<ByteMap<Vec<u8>>>,
}

impl Database {
    /// The invariant of the representation.
    pub closed spec fn wf(&self) -> bool {
        &&& self.balances.wf()
        &&& self.storage.wf()
        &&& forall|account: Seq<u8>| #[trigger]
            self.storage@.contains_key(account) ==> self.storage@[account].wf()
    }

    /// The balance recorded for each account that has one.
    pub closed spec fn balances(&self) -> Map<Seq<u8>, Balance> {
        self.balances@
    }

    /// What an account owns: its recorded balance, or nothing.
    pub open spec fn balance_of(&self, account: Seq<u8>) -> Balance {
        balance_in(self.balances(), account)
    }

    /// The stored values, each under the pair of its owner and its key.
    pub closed spec fn cells(&self) -> Map<(Seq<u8>, Seq<u8>), Seq<u8>> {
        Map::new(
            |cell: (Seq<u8>, Seq<u8>)|
                self.storage@.contains_key(cell.0) && self.storage@[cell.0]@.contains_key(cell.1),
            |cell: (Seq<u8>, Seq<u8>)| self.storage@[cell.0]@[cell.1]@,
        )
    }

    /// Creates a database without accounts and without stored values.
    pub fn new() -> (db: Self)
        ensures
            db.wf(),
            db.balances() == Map::<Seq<u8>, Balance>::empty(),
            db.cells() == Map::<(Seq<u8>, Seq<u8>), Seq<u8>>::empty(),
    {
        let db = Database { balances: ByteMap::new(), storage: ByteMap::new() };
        assert(db.cells() =~= Map::<(Seq<u8>, Seq<u8>), Seq<u8>>::empty());
        db
    }

    /// Returns the balance of `account`, which is zero where none is recorded.
    pub fn get_balance(&self, account: &[u8]) -> (balance: Balance)
        requires
            self.wf(),
        ensures
            balance == self.balance_of(account@),
    {
        match self.balances.get(account) {
            Some(balance) => *balance,
            None => 0,
        }
    }

    /// Returns the balance recorded for `account`, if one is.
    pub fn find_balance(&self, account: &[u8]) -> (balance: Option<Balance>)
        requires
            self.wf(),
        ensures
            balance is Some <==> self.balances().contains_key(account@),
            balance matches Some(amount) ==> amount == self.balances()[account@],
    {
        match self.balances.get(account) {
            Some(balance) => Some(*balance),
            None => None,
        }
    }

    /// Records `value` as the balance of `account`, whatever it was before.
    pub fn set_balance(&mut self, account: &[u8], value: Balance)
        requires
            old(self).wf(),
        ensures
            final(self).wf(),
            final(self).balances() == old(self).balances().insert(account@, value),
            final(self).cells() == old(self).cells(),
    {
        self.balances.insert(slice_to_vec(account), value);
    }

    /// Stores `value` under `key` for `account` and returns what was stored
    /// there before.
    pub fn insert_into_contract_storage(
        &mut self,
        account: &[u8],
        key: &[u8],
        value: Vec<u8>,
    ) -> (previous: Option<Vec<u8>>)
        requires
            old(self).wf(),
        ensures
            final(self).wf(),
            final(self).balances() == old(self).balances(),
            final(self).cells() == old(self).cells().insert((account@, key@), value@),
            previous is Some <==> old(self).cells().contains_key((account@, key@)),
            previous matches Some(bytes) ==> bytes@ == old(self).cells()[(account@, key@)],
    {
        let mut own = match self.storage.remove(account) {
            Some(own) => own,
            None => ByteMap::new(),
        };
        let previous = own.insert(slice_to_vec(key), value);
        self.storage.insert(slice_to_vec(account), own);
        assert(final(self).cells() =~= old(self).cells().insert((account@, key@), value@));
        previous
    }

    /// Returns what `account` has stored under `key`, if anything.
    pub fn get_from_contract_storage(&self, account: &[u8], key: &[u8]) -> (value: Option<
        &Vec<u8>,
    >)
        requires
            self.wf(),
        ensures
            value is Some <==> self.cells().contains_key((account@, key@)),
            value matches Some(bytes) ==> bytes@ == self.cells()[(account@, key@)],
    {
        match self.storage.get(account) {
            Some(own) => own.get(key),
            None => None,
        }
    }

    /// Removes what `account` has stored under `key` and returns it.
    pub fn remove_contract_storage(&mut self, account: &[u8], key: &[u8]) -> (removed: Option<
        Vec<u8>,
    >)
        requires
            old(self).wf(),
        ensures
            final(self).wf(),
            final(self).balances() == old(self).balances(),
            final(self).cells() == old(self).cells().remove((account@, key@)),
            removed is Some <==> old(self).cells().contains_key((account@, key@)),
            removed matches Some(bytes) ==> bytes@ == old(self).cells()[(account@, key@)],
    {
        match self.storage.remove(account) {
            Some(own) => {
                let mut own = own;
                let removed = own.remove(key);
                self.storage.insert(slice_to_vec(account), own);
                assert(final(self).cells() =~= old(self).cells().remove((account@, key@)));
                removed
            },
            None => {
                assert(final(self).cells() =~= old(self).cells().remove((account@, key@)));
                None
            },
        }
    }
}

} // verus!
