//! The context of the call that is being executed.

use vstd::prelude::*;
use crate::types::{AccountId, Balance, BlockNumber, BlockTimestamp};

verus! {

/// What the executing contract can ask about the call it runs in. The engine
/// overwrites the fields before each simulated call.
pub struct ExecContext {
    /// The account that made the call. Unset before any call is staged.
    pub caller: Option<AccountId>,
    /// The contract that is being executed. Unset before any call is staged.
    pub callee: Option<AccountId>,
    /// The value sent along with the call.
    pub value_transferred: Balance,
    /// The number of the current block.
    pub block_number: BlockNumber,
    /// The timestamp of the current block.
    pub block_timestamp: BlockTimestamp,
    /// The arguments of the call.
    pub input: Vec<u8>,
    /// The data the call returns.
    pub output: Vec<u8>,
}

impl ExecContext {
    /// Creates the context of an engine in which no call is staged yet.
    pub fn new() -> (context: Self)
        ensures
            context.caller is None,
            context.callee is None,
            context.value_transferred == 0,
            context.block_number == 0,
            context.block_timestamp == 0,
            context.input@ == Seq::<u8>::empty(),
            context.output@ == Seq::<u8>::empty(),
    {
        ExecContext {
            caller: None,
            callee: None,
            value_transferred: 0,
            block_number: 0,
            block_timestamp: 0,
            input: Vec::new(),
            output: Vec::new(),
        }
    }

    /// Whether this context differs from `before` in its input at most.
    pub open spec fn same_but_input(&self, before: &ExecContext) -> bool {
        &&& self.caller == before.caller
        &&& self.callee == before.callee
        &&& self.value_transferred == before.value_transferred
        &&& self.block_number == before.block_number
        &&& self.block_timestamp == before.block_timestamp
        &&& self.output == before.output
    }

    /// Whether this context differs from `before` in its output at most.
    pub open spec fn same_but_output(&self, before: &ExecContext) -> bool {
        &&& self.caller == before.caller
        &&& self.callee == before.callee
        &&& self.value_transferred == before.value_transferred
        &&& self.block_number == before.block_number
        &&& self.block_timestamp == before.block_timestamp
        &&& self.input == before.input
    }

    /// The bytes of the executing contract's identifier.
    pub open spec fn callee_bytes(&self) -> Seq<u8>
        recommends
            self.callee is Some,
    {
        self.callee->0@
    }

    /// Returns the identifier of the executing contract as bytes.
    pub fn callee(&self) -> (bytes: &[u8])
        requires
            self.callee is Some,
        ensures
            bytes@ == self.callee_bytes(),
    {
        match &self.callee {
            Some(id) => id.as_bytes(),
            None => vstd::pervasive::unreached(),
        }
    }
}

} // verus!
