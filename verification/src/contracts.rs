//! The registry of deployed contracts and the bookkeeping of nested calls.

use vstd::prelude::*;
use crate::byte_map::ByteMap;
use crate::error::Error;

verus! {

/// A function of a deployed contract that a test harness can run.
pub trait EntryPoint {
    /// Runs the function.
    fn invoke(&self);
}

/// The entry points of a deployed contract.
pub struct Contract {
    /// Runs the contract's constructor.
    pub deploy: Box<dyn EntryPoint>,
    /// Runs a message of the contract.
    pub call: Box<dyn EntryPoint>,
}

/// The bookkeeping of nested calls as plain maps: how many calls into each
/// contract are open, and which accounts may be entered again. An account
/// without an entry has no open call and no permission.
pub ghost struct Reentrancy {
    pub entrance_count: Map<Seq<u8>, u32>,
    pub allow_reentry: Map<Seq<u8>, bool>,
}

impl Reentrancy {
    /// The number of open calls into `callee`.
    pub open spec fn count(self, callee: Seq<u8>) -> u32 {
        if self.entrance_count.contains_key(callee) {
            self.entrance_count[callee]
        } else {
            0
        }
    }

    /// Whether `callee` may be entered while a call into it is open.
    pub open spec fn allowed(self, callee: Seq<u8>) -> bool {
        self.allow_reentry.contains_key(callee) && self.allow_reentry[callee]
    }

    /// The bookkeeping after `account` was given or denied the permission.
    /// A denial removes the entry; it stores no `false`.
    pub open spec fn with_permission(self, account: Seq<u8>, allow: bool) -> Reentrancy {
        Reentrancy {
            entrance_count: self.entrance_count,
            allow_reentry: if allow {
                self.allow_reentry.insert(account, true)
            } else {
                self.allow_reentry.remove(account)
            },
        }
    }

    /// The bookkeeping after a call by `caller` set its flag for reentry to
    /// `allow`. Without a caller nothing changes.
    pub open spec fn granted(self, caller: Option<Seq<u8>>, allow: bool) -> Reentrancy {
        match caller {
            Some(account) => self.with_permission(account, allow),
            None => self,
        }
    }

    /// The bookkeeping after the permission that a call by `caller` may have
    /// given has ended with that call.
    pub open spec fn revoked(self, caller: Option<Seq<u8>>) -> Reentrancy {
        self.granted(caller, false)
    }

    /// Whether a call into `callee` is turned away: one is open already and
    /// `callee` may not be entered again.
    pub open spec fn trapped(self, callee: Seq<u8>) -> bool {
        !self.allowed(callee) && self.count(callee) > 0
    }

    /// The bookkeeping after one more call into `callee` was opened.
    pub open spec fn entered(self, callee: Seq<u8>) -> Reentrancy {
        Reentrancy {
            entrance_count: self.entrance_count.insert(callee, (self.count(callee) + 1) as u32),
            allow_reentry: self.allow_reentry,
        }
    }

    /// The bookkeeping after one call into `callee` returned.
    pub open spec fn left(self, callee: Seq<u8>) -> Reentrancy {
        Reentrancy {
            entrance_count: self.entrance_count.insert(callee, (self.count(callee) - 1) as u32),
            allow_reentry: self.allow_reentry,
        }
    }
}

/// The contracts' store.
pub struct ContractStorage {
    /// The code hash of each instantiated contract.
    pub instantiated: ByteMap<Vec<u8>>,
    /// The number of open calls into each contract.
    pub entrance_count: ByteMap<u32>,
    /// The accounts that may be entered again.
    pub allow_reentry: ByteMap<bool>,
    /// The entry points of each deployed contract.
    pub deployed: ByteMap<Contract>,
}

impl Default for ContractStorage {
    fn default() -> (storage: Self)
        ensures
            storage.wf(),
            storage.instantiated@ == Map::<Seq<u8>, Vec<u8>>::empty(),
            storage.entrance_count@ == Map::<Seq<u8>, u32>::empty(),
            storage.allow_reentry@ == Map::<Seq<u8>, bool>::empty(),
            storage.deployed@ == Map::<Seq<u8>, Contract>::empty(),
    {
        ContractStorage {
            instantiated: ByteMap::new(),
            entrance_count: ByteMap::new(),
            allow_reentry: ByteMap::new(),
            deployed: ByteMap::new(),
        }
    }
}

impl ContractStorage {
    /// The invariant of the representation.
    pub open spec fn wf(&self) -> bool {
        &&& self.instantiated.wf()
        &&& self.entrance_count.wf()
        &&& self.allow_reentry.wf()
        &&& self.deployed.wf()
    }

    /// The bookkeeping of nested calls that the store holds.
    pub open spec fn reentrancy(&self) -> Reentrancy {
        Reentrancy {
            entrance_count: self.entrance_count@,
            allow_reentry: self.allow_reentry@,
        }
    }

    /// Returns the number of open calls into `callee`.
    pub fn get_entrance_count(&self, callee: Vec<u8>) -> (count: u32)
        requires
            self.wf(),
        ensures
            count == self.reentrancy().count(callee@),
    {
        match self.entrance_count.get(callee.as_slice()) {
            Some(count) => *count,
            None => 0,
        }
    }

    /// Tells whether `callee` may be entered while a call into it is open.
    pub fn get_allow_reentry(&self, callee: Vec<u8>) -> (allowed: bool)
        requires
            self.wf(),
        ensures
            allowed == self.reentrancy().allowed(callee@),
    {
        match self.allow_reentry.get(callee.as_slice()) {
            Some(allowed) => *allowed,
            None => false,
        }
    }

    /// Gives `callee` the permission to be entered again, or takes it away.
    pub fn set_allow_reentry(&mut self, callee: Vec<u8>, allow: bool)
        requires
            old(self).wf(),
        ensures
            final(self).wf(),
            final(self).reentrancy() == old(self).reentrancy().with_permission(callee@, allow),
            final(self).instantiated == old(self).instantiated,
            final(self).deployed == old(self).deployed,
    {
        if allow {
            self.allow_reentry.insert(callee, allow);
        } else {
            self.allow_reentry.remove(callee.as_slice());
        }
    }

    /// Opens one more call into `callee`. The counter must have room.
    pub fn increase_entrance_count(&mut self, callee: Vec<u8>) -> (outcome: Result<(), Error>)
        requires
            old(self).wf(),
            old(self).reentrancy().count(callee@) < u32::MAX,
        ensures
            final(self).wf(),
            outcome == Ok::<(), Error>(()),
            final(self).reentrancy() == old(self).reentrancy().entered(callee@),
            final(self).instantiated == old(self).instantiated,
            final(self).deployed == old(self).deployed,
    {
        let entrance_count = match self.entrance_count.get(callee.as_slice()) {
            Some(count) => *count + 1,
            None => 1,
        };
        self.entrance_count.insert(callee, entrance_count);
        Ok(())
    }

    /// Closes one call into `callee`. Where none is open the callee has
    /// trapped, and nothing changes.
    pub fn decrease_entrance_count(&mut self, callee: Vec<u8>) -> (outcome: Result<(), Error>)
        requires
            old(self).wf(),
        ensures
            final(self).wf(),
            outcome == if old(self).reentrancy().count(callee@) == 0 {
                Err::<(), Error>(Error::CalleeTrapped)
            } else {
                Ok::<(), Error>(())
            },
            final(self).reentrancy() == if old(self).reentrancy().count(callee@) == 0 {
                old(self).reentrancy()
            } else {
                old(self).reentrancy().left(callee@)
            },
            final(self).instantiated == old(self).instantiated,
            final(self).deployed == old(self).deployed,
    {
        let entrance_count = match self.entrance_count.get(callee.as_slice()) {
            Some(count) => {
                if *count == 0 {
                    return Err(Error::CalleeTrapped);
                } else {
                    *count - 1
                }
            },
            None => {
                return Err(Error::CalleeTrapped);
            },
        };
        self.entrance_count.insert(callee, entrance_count);
        Ok(())
    }
}

} // verus!
