//! The engine: every host operation a contract can invoke.

use vstd::prelude::*;
use vstd::slice::slice_to_vec;
use crate::bytes::{bytes_eq, set_output};
use crate::chain_extension::ChainExtensionHandler;
use crate::codec::{
    decode_u128, decoded_balance, encode_balance_and_bytes, encode_bytes,
    encode_status_and_bytes, encode_u128, encode_u32, encode_u64, encoded_bytes, le_bytes,
    lemma_balance_round_trip,
};
use crate::contracts::{Contract, ContractStorage, EntryPoint};
use crate::database::{balance_in, Database};
use crate::ecdsa::{deliver_recovered_key, is_compressed_key, recover_compressed, recovery_of};
use crate::error::Error;
use crate::exec_context::ExecContext;
use crate::hashing::{
    blake2b_128, blake2b_128_digest, blake2b_256, blake2b_256_digest, keccak_256,
    keccak_256_digest, sha2_256, sha2_256_digest,
};
use crate::test_api::{byte_strings, DebugInfo, EmittedEvent};
use crate::topics::{event_topics, split_topics, topics_well_formed};
use crate::types::{AccountId, Balance, BlockTimestamp};

verus! {

/// The chain specification.
pub struct ChainSpec {
    /// The current gas price.
    pub gas_price: Balance,
    /// The minimum value an account of the chain must have.
    pub minimum_balance: Balance,
    /// The targeted block time.
    pub block_time: BlockTimestamp,
}

impl Default for ChainSpec {
    /// A gas price of 100, a minimum balance of 1000000 and a block time of 6.
    fn default() -> (spec: Self)
        ensures
            spec.gas_price == 100,
            spec.minimum_balance == 1000000,
            spec.block_time == 6,
    {
        ChainSpec { gas_price: 100, minimum_balance: 1000000, block_time: 6 }
    }
}

/// An operation of the host that the off-chain engine does not carry out.
#[derive(Debug, Clone, Copy, PartialEq, Eq, Structural)]
pub enum Unsupported {
    /// Gas is not metered off-chain.
    GasLeft,
    /// Contracts are not instantiated off-chain.
    Instantiate,
    /// Contracts do not call each other off-chain.
    Call,
}

/// Whether the flags hand the caller's own input on to the callee.
pub open spec fn forwards_input(call_flags: u32) -> bool {
    call_flags & 1 != 0
}

/// Whether the flags hand a copy of the caller's input to the callee.
pub open spec fn clones_input(call_flags: u32) -> bool {
    call_flags & 2 != 0
}

/// Whether the flags make the callee's output the output of the caller.
pub open spec fn is_tail_call(call_flags: u32) -> bool {
    call_flags & 4 != 0
}

/// Whether the flags allow the caller to be entered again during the call.
pub open spec fn allows_reentry(call_flags: u32) -> bool {
    call_flags & 8 != 0
}

/// The input that the callee receives: the caller's own where the flags
/// forward or clone it, and else the input given with the call.
pub open spec fn effective_input(call_flags: u32, own: Seq<u8>, given: Seq<u8>) -> Seq<u8> {
    if forwards_input(call_flags) || clones_input(call_flags) {
        own
    } else {
        given
    }
}

/// The caller's own input after a call with these flags was let in:
/// forwarding empties it, and nothing else touches it.
pub open spec fn input_after_call(call_flags: u32, own: Seq<u8>) -> Seq<u8> {
    if forwards_input(call_flags) {
        Seq::<u8>::empty()
    } else {
        own
    }
}

/// The bytes of an account that may be absent.
pub open spec fn account_bytes(account: Option<AccountId>) -> Option<Seq<u8>> {
    match account {
        Some(id) => Some(id@),
        None => None,
    }
}

/// The fee for `gas` units at `gas_price`, which stops at the largest balance.
pub open spec fn fee_for(gas_price: Balance, gas: u64) -> Balance {
    if gas_price * gas <= u128::MAX {
        (gas_price * gas) as u128
    } else {
        u128::MAX
    }
}

/// `output` after `bytes` were written to its front.
pub open spec fn written(bytes: Seq<u8>, output: Seq<u8>) -> Seq<u8> {
    bytes + output.subrange(bytes.len() as int, output.len() as int)
}

/// The balances after `amount` went from `payer` to `dest`: the payer is
/// debited first, then the payee is credited with what it owns after the
/// debit. A transfer to the payer itself so leaves its balance as it was.
pub open spec fn balances_after_transfer(
    balances: Map<Seq<u8>, Balance>,
    payer: Seq<u8>,
    dest: Seq<u8>,
    amount: Balance,
) -> Map<Seq<u8>, Balance> {
    let debited = balances.insert(payer, (balances[payer] - amount) as u128);
    debited.insert(dest, (balance_in(debited, dest) + amount) as u128)
}

/// The off-chain engine.
pub struct Engine {
    /// The balances and the storage of the simulated chain.
    pub database: Database,
    /// The current execution context.
    pub exec_context: ExecContext,
    /// Recorder for relevant interactions with the engine.
    pub debug_info: DebugInfo,
    /// The chain specification.
    pub chain_spec: ChainSpec,
    /// Handler for registered chain extensions.
    pub chain_extension_handler: ChainExtensionHandler,
    /// Contracts' store.
    pub contracts: ContractStorage,
}

impl Default for Engine {
    fn default() -> (engine: Self)
        ensures
            engine.wf(),
            engine.is_fresh(),
    {
        Engine::new()
    }
}

impl Engine {
    /// The invariant of the engine's parts.
    pub open spec fn wf(&self) -> bool {
        &&& self.database.wf()
        &&& self.debug_info.wf()
        &&& self.contracts.wf()
    }

    /// The bytes of the executing contract's identifier.
    pub open spec fn callee_bytes(&self) -> Seq<u8>
        recommends
            self.exec_context.callee is Some,
    {
        self.exec_context.callee_bytes()
    }

    /// What the executing contract has stored under `key`, if anything.
    pub open spec fn stored(&self, key: Seq<u8>) -> Option<Seq<u8>> {
        if self.database.cells().contains_key((self.callee_bytes(), key)) {
            Some(self.database.cells()[(self.callee_bytes(), key)])
        } else {
            None
        }
    }

    /// The amount that a transfer of the encoded `value` moves: the decoded
    /// amount, where `value` decodes and the executing contract has a balance
    /// that covers it.
    pub open spec fn transfer_amount(&self, value: Seq<u8>) -> Option<Balance> {
        match decoded_balance(value) {
            Some(amount) => if self.database.balances().contains_key(self.callee_bytes())
                && amount <= self.database.balances()[self.callee_bytes()] {
                Some(amount)
            } else {
                None
            },
            None => None,
        }
    }

    /// Whether this is an engine as it is created: an empty database, no
    /// staged call, the default chain specification, and nothing recorded or
    /// registered.
    pub open spec fn is_fresh(&self) -> bool {
        &&& self.database.balances() == Map::<Seq<u8>, Balance>::empty()
        &&& self.database.cells() == Map::<(Seq<u8>, Seq<u8>), Seq<u8>>::empty()
        &&& self.exec_context.caller is None
        &&& self.exec_context.callee is None
        &&& self.exec_context.value_transferred == 0
        &&& self.exec_context.block_number == 0
        &&& self.exec_context.block_timestamp == 0
        &&& self.exec_context.input@ == Seq::<u8>::empty()
        &&& self.exec_context.output@ == Seq::<u8>::empty()
        &&& self.debug_info.events() == Seq::<EmittedEvent>::empty()
        &&& self.debug_info.messages() == Seq::<Seq<char>>::empty()
        &&& self.debug_info.touched() == Set::<(Seq<u8>, Seq<u8>)>::empty()
        &&& forall|account: Seq<u8>|
            self.debug_info.reads(account) == 0 && self.debug_info.writes(account) == 0
        &&& self.chain_spec.gas_price == 100
        &&& self.chain_spec.minimum_balance == 1000000
        &&& self.chain_spec.block_time == 6
        &&& self.chain_extension_handler.ids() == Set::<u32>::empty()
        &&& self.contracts.instantiated@ == Map::<Seq<u8>, Vec<u8>>::empty()
        &&& self.contracts.entrance_count@ == Map::<Seq<u8>, u32>::empty()
        &&& self.contracts.allow_reentry@ == Map::<Seq<u8>, bool>::empty()
        &&& self.contracts.deployed@ == Map::<Seq<u8>, Contract>::empty()
    }

    /// Creates a new engine.
    pub fn new() -> (engine: Self)
        ensures
            engine.wf(),
            engine.is_fresh(),
    {
        Engine {
            database: Database::new(),
            exec_context: ExecContext::new(),
            debug_info: DebugInfo::new(),
            chain_spec: ChainSpec::default(),
            chain_extension_handler: ChainExtensionHandler::new(),
            contracts: ContractStorage::default(),
        }
    }

    /// Whether a transfer of the encoded `value` to `account` leaves the
    /// payee with a balance that a balance can hold: so it is where the
    /// transfer fails and moves nothing, where the payee is the executing
    /// contract itself, and where the payee's balance has room for the
    /// amount.
    pub open spec fn transfer_has_room(&self, account: Seq<u8>, value: Seq<u8>) -> bool {
        self.transfer_amount(value) matches Some(amount) ==> account == self.callee_bytes()
            || self.database.balance_of(account) + amount <= u128::MAX
    }

    /// Tells whether a transfer of the encoded `value` to `account_id` would
    /// leave the payee with a balance that a balance can hold.
    pub fn transfer_fits(&self, account_id: &[u8], value: &[u8]) -> (fits: bool)
        requires
            self.wf(),
            self.exec_context.callee is Some,
        ensures
            fits == self.transfer_has_room(account_id@, value@),
    {
        let amount = match decode_u128(value) {
            Some(amount) => amount,
            None => {
                return true;
            },
        };
        match self.database.find_balance(self.exec_context.callee()) {
            Some(balance) => amount > balance || bytes_eq(account_id, self.exec_context.callee())
                || self.database.get_balance(account_id) <= u128::MAX - amount,
            None => true,
        }
    }

    /// Transfers value from the executing contract to the destination
    /// account, which need not exist. The transfer fails, and changes
    /// nothing, where the amount does not decode or the contract has no
    /// balance that covers it. A transfer of zero is allowed. The contract is
    /// debited before the destination is credited, so a transfer to the
    /// contract itself leaves its balance as it was.
    pub fn transfer(&mut self, account_id: &[u8], value: &[u8]) -> (outcome: Result<(), Error>)
        requires
            old(self).wf(),
            old(self).exec_context.callee is Some,
            old(self).transfer_has_room(account_id@, value@),
        ensures
            final(self).wf(),
            outcome == match old(self).transfer_amount(value@) {
                Some(_) => Ok::<(), Error>(()),
                None => Err::<(), Error>(Error::TransferFailed),
            },
            final(self).database.balances() == match old(self).transfer_amount(value@) {
                Some(amount) => balances_after_transfer(
                    old(self).database.balances(),
                    old(self).callee_bytes(),
                    account_id@,
                    amount,
                ),
                None => old(self).database.balances(),
            },
            final(self).database.cells() == old(self).database.cells(),
            final(self).exec_context == old(self).exec_context,
            final(self).debug_info == old(self).debug_info,
            final(self).chain_spec == old(self).chain_spec,
            final(self).chain_extension_handler == old(self).chain_extension_handler,
            final(self).contracts == old(self).contracts,
    {
        let increment = match decode_u128(value) {
            Some(amount) => amount,
            None => {
                return Err(Error::TransferFailed);
            },
        };
        let contract = slice_to_vec(self.exec_context.callee());
        let contract_old_balance = match self.database.find_balance(contract.as_slice()) {
            Some(balance) => balance,
            None => {
                return Err(Error::TransferFailed);
            },
        };
        if increment > contract_old_balance {
            return Err(Error::TransferFailed);
        }
        self.database.set_balance(contract.as_slice(), contract_old_balance - increment);
        let dest_balance = self.database.get_balance(account_id);
        self.database.set_balance(account_id, dest_balance + increment);
        Ok(())
    }

    /// Deposits an event identified by the supplied topics and data.
    pub fn deposit_event(&mut self, topics: &[u8], data: &[u8])
        requires
            old(self).wf(),
            topics_well_formed(topics@),
        ensures
            final(self).wf(),
            final(self).debug_info.events().len() == old(self).debug_info.events().len() + 1,
            final(self).debug_info.events().drop_last() == old(self).debug_info.events(),
            byte_strings(final(self).debug_info.events().last().topics@) == event_topics(topics@),
            final(self).debug_info.events().last().data@ == data@,
            final(self).debug_info.messages() == old(self).debug_info.messages(),
            final(self).debug_info.touched() == old(self).debug_info.touched(),
            forall|account: Seq<u8>|
                final(self).debug_info.reads(account) == old(self).debug_info.reads(account)
                    && final(self).debug_info.writes(account) == old(self).debug_info.writes(
                    account,
                ),
            final(self).database == old(self).database,
            final(self).exec_context == old(self).exec_context,
            final(self).chain_spec == old(self).chain_spec,
            final(self).chain_extension_handler == old(self).chain_extension_handler,
            final(self).contracts == old(self).contracts,
    {
        let topics_vec = match split_topics(topics) {
            Some(list) => list,
            None => Vec::new(),
        };
        let event = EmittedEvent { topics: topics_vec, data: slice_to_vec(data) };
        self.debug_info.record_event(event);
        assert(final(self).debug_info.events().drop_last() =~= old(self).debug_info.events());
    }

    /// Writes the encoded value into the storage at the given key.
    /// Returns the size of the previously stored value at the key if any.
    pub fn set_storage(&mut self, key: &[u8], encoded_value: &[u8]) -> (previous: Option<u32>)
        requires
            old(self).wf(),
            old(self).exec_context.callee is Some,
            old(self).stored(key@) matches Some(bytes) ==> bytes.len() <= u32::MAX,
        ensures
            final(self).wf(),
            previous == match old(self).stored(key@) {
                Some(bytes) => Some(bytes.len() as u32),
                None => None,
            },
            final(self).database.cells() == old(self).database.cells().insert(
                (old(self).callee_bytes(), key@),
                encoded_value@,
            ),
            final(self).database.balances() == old(self).database.balances(),
            final(self).debug_info.counted_write(&old(self).debug_info, old(self).callee_bytes()),
            final(self).debug_info.touched() == old(self).debug_info.touched().insert(
                (old(self).callee_bytes(), key@),
            ),
            final(self).exec_context == old(self).exec_context,
            final(self).chain_spec == old(self).chain_spec,
            final(self).chain_extension_handler == old(self).chain_extension_handler,
            final(self).contracts == old(self).contracts,
    {
        let callee = slice_to_vec(self.exec_context.callee());
        self.debug_info.inc_writes(AccountId::from_bytes(callee.as_slice()));
        self.debug_info.record_cell_for_account(
            AccountId::from_bytes(callee.as_slice()),
            slice_to_vec(key),
        );
        match self.database.insert_into_contract_storage(
            callee.as_slice(),
            key,
            slice_to_vec(encoded_value),
        ) {
            Some(bytes) => Some(bytes.len() as u32),
            None => None,
        }
    }

    /// Copies the value stored at the key to the front of `output`, which
    /// has to hold it. Without a value the key is not found and `output`
    /// stays as it was. Either way one read is counted.
    pub fn get_storage(&mut self, key: &[u8], output: &mut [u8]) -> (outcome: Result<(), Error>)
        requires
            old(self).wf(),
            old(self).exec_context.callee is Some,
            old(self).stored(key@) matches Some(bytes) ==> bytes.len() <= old(output)@.len(),
        ensures
            final(self).wf(),
            match old(self).stored(key@) {
                Some(bytes) => outcome == Ok::<(), Error>(()) && final(output)@ == written(
                    bytes,
                    old(output)@,
                ),
                None => outcome == Err::<(), Error>(Error::KeyNotFound) && final(output)@ == old(
                    output,
                )@,
            },
            final(self).debug_info.counted_read(&old(self).debug_info, old(self).callee_bytes()),
            final(self).database == old(self).database,
            final(self).exec_context == old(self).exec_context,
            final(self).chain_spec == old(self).chain_spec,
            final(self).chain_extension_handler == old(self).chain_extension_handler,
            final(self).contracts == old(self).contracts,
    {
        let callee = slice_to_vec(self.exec_context.callee());
        self.debug_info.inc_reads(AccountId::from_bytes(callee.as_slice()));
        match self.database.get_from_contract_storage(callee.as_slice(), key) {
            Some(val) => {
                set_output(output, val.as_slice());
                Ok(())
            },
            None => Err(Error::KeyNotFound),
        }
    }

    /// Removes the value stored at the key and copies it to the front of
    /// `output`, which has to hold it. Without a value the key is not found
    /// and `output` stays as it was. Either way one write is counted.
    pub fn take_storage(&mut self, key: &[u8], output: &mut [u8]) -> (outcome: Result<
        (),
        Error,
    >)
        requires
            old(self).wf(),
            old(self).exec_context.callee is Some,
            old(self).stored(key@) matches Some(bytes) ==> bytes.len() <= old(output)@.len(),
        ensures
            final(self).wf(),
            match old(self).stored(key@) {
                Some(bytes) => outcome == Ok::<(), Error>(()) && final(output)@ == written(
                    bytes,
                    old(output)@,
                ),
                None => outcome == Err::<(), Error>(Error::KeyNotFound) && final(output)@ == old(
                    output,
                )@,
            },
            final(self).database.cells() == old(self).database.cells().remove(
                (old(self).callee_bytes(), key@),
            ),
            final(self).database.balances() == old(self).database.balances(),
            final(self).debug_info.counted_write(&old(self).debug_info, old(self).callee_bytes()),
            final(self).debug_info.touched() == old(self).debug_info.touched(),
            final(self).exec_context == old(self).exec_context,
            final(self).chain_spec == old(self).chain_spec,
            final(self).chain_extension_handler == old(self).chain_extension_handler,
            final(self).contracts == old(self).contracts,
    {
        let callee = slice_to_vec(self.exec_context.callee());
        self.debug_info.inc_writes(AccountId::from_bytes(callee.as_slice()));
        match self.database.remove_contract_storage(callee.as_slice(), key) {
            Some(val) => {
                set_output(output, val.as_slice());
                Ok(())
            },
            None => Err(Error::KeyNotFound),
        }
    }

    /// Returns the size of the value stored in the contract storage at the
    /// key if any, which has to fit into 32 bits. One read is counted.
    pub fn contains_storage(&mut self, key: &[u8]) -> (size: Option<u32>)
        requires
            old(self).wf(),
            old(self).exec_context.callee is Some,
            old(self).stored(key@) matches Some(bytes) ==> bytes.len() <= u32::MAX,
        ensures
            final(self).wf(),
            size == match old(self).stored(key@) {
                Some(bytes) => Some(bytes.len() as u32),
                None => None,
            },
            final(self).debug_info.counted_read(&old(self).debug_info, old(self).callee_bytes()),
            final(self).database == old(self).database,
            final(self).exec_context == old(self).exec_context,
            final(self).chain_spec == old(self).chain_spec,
            final(self).chain_extension_handler == old(self).chain_extension_handler,
            final(self).contracts == old(self).contracts,
    {
        let callee = slice_to_vec(self.exec_context.callee());
        self.debug_info.inc_reads(AccountId::from_bytes(callee.as_slice()));
        match self.database.get_from_contract_storage(callee.as_slice(), key) {
            Some(val) => Some(val.len() as u32),
            None => None,
        }
    }

    /// Removes the storage entry at the given key. Returns the size of the
    /// previously stored value at the key if any, which has to fit into 32
    /// bits. One write is counted, and the cell no longer counts as touched.
    pub fn clear_storage(&mut self, key: &[u8]) -> (size: Option<u32>)
        requires
            old(self).wf(),
            old(self).exec_context.callee is Some,
            old(self).stored(key@) matches Some(bytes) ==> bytes.len() <= u32::MAX,
        ensures
            final(self).wf(),
            size == match old(self).stored(key@) {
                Some(bytes) => Some(bytes.len() as u32),
                None => None,
            },
            final(self).database.cells() == old(self).database.cells().remove(
                (old(self).callee_bytes(), key@),
            ),
            final(self).database.balances() == old(self).database.balances(),
            final(self).debug_info.counted_write(&old(self).debug_info, old(self).callee_bytes()),
            final(self).debug_info.touched() == old(self).debug_info.touched().remove(
                (old(self).callee_bytes(), key@),
            ),
            final(self).exec_context == old(self).exec_context,
            final(self).chain_spec == old(self).chain_spec,
            final(self).chain_extension_handler == old(self).chain_extension_handler,
            final(self).contracts == old(self).contracts,
    {
        let callee = slice_to_vec(self.exec_context.callee());
        self.debug_info.inc_writes(AccountId::from_bytes(callee.as_slice()));
        self.debug_info.remove_cell_for_account(
            AccountId::from_bytes(callee.as_slice()),
            slice_to_vec(key),
        );
        match self.database.remove_contract_storage(callee.as_slice(), key) {
            Some(val) => Some(val.len() as u32),
            None => None,
        }
    }

    /// Sends the whole balance of the executing contract to the beneficiary
    /// and ends the contract. Returns what the end of the contract is
    /// reported with: the encoded pair of that balance and the beneficiary.
    /// The contract has to have a balance record. A contract that names
    /// itself as beneficiary keeps its balance.
    pub fn terminate(&mut self, beneficiary: &[u8]) -> (report: Vec<u8>)
        requires
            old(self).wf(),
            old(self).exec_context.callee is Some,
            old(self).database.balances().contains_key(old(self).callee_bytes()),
            beneficiary@ == old(self).callee_bytes() || old(self).database.balance_of(beneficiary@)
                + old(self).database.balance_of(old(self).callee_bytes()) <= u128::MAX,
            beneficiary@.len() <= u32::MAX,
        ensures
            final(self).wf(),
            report@ == le_bytes(old(self).database.balance_of(old(self).callee_bytes()) as nat, 16)
                + encoded_bytes(beneficiary@),
            final(self).database.balances() == balances_after_transfer(
                old(self).database.balances(),
                old(self).callee_bytes(),
                beneficiary@,
                old(self).database.balance_of(old(self).callee_bytes()),
            ),
            final(self).database.cells() == old(self).database.cells(),
            final(self).exec_context == old(self).exec_context,
            final(self).debug_info == old(self).debug_info,
            final(self).chain_spec == old(self).chain_spec,
            final(self).chain_extension_handler == old(self).chain_extension_handler,
            final(self).contracts == old(self).contracts,
    {
        let all = self.database.get_balance(self.exec_context.callee());
        let value = encode_u128(all);
        proof {
            lemma_balance_round_trip(all, Seq::<u8>::empty());
            assert(value@ + Seq::<u8>::empty() =~= value@);
        }
        let _ = self.transfer(beneficiary, value.as_slice());
        encode_balance_and_bytes(all, slice_to_vec(beneficiary))
    }

    /// Writes the address of the caller to the front of `output`.
    pub fn caller(&self, output: &mut [u8])
        requires
            self.exec_context.caller is Some,
            self.exec_context.caller->0@.len() <= old(output)@.len(),
        ensures
            final(output)@ == written(self.exec_context.caller->0@, old(output)@),
    {
        match &self.exec_context.caller {
            Some(caller) => set_output(output, caller.as_bytes()),
            None => {},
        }
    }

    /// Writes the encoded balance of the executing contract to the front of
    /// `output`. The contract has to have a balance record.
    pub fn balance(&self, output: &mut [u8])
        requires
            self.wf(),
            self.exec_context.callee is Some,
            self.database.balances().contains_key(self.callee_bytes()),
            old(output)@.len() >= 16,
        ensures
            final(output)@ == written(
                le_bytes(self.database.balances()[self.callee_bytes()] as nat, 16),
                old(output)@,
            ),
    {
        let balance_in_storage = self.database.get_balance(self.exec_context.callee());
        let balance = encode_u128(balance_in_storage);
        proof {
            crate::codec::lemma_le_bytes_len(balance_in_storage as nat, 16);
        }
        set_output(output, balance.as_slice())
    }

    /// Writes the encoded value transferred with the call to the front of
    /// `output`.
    pub fn value_transferred(&self, output: &mut [u8])
        requires
            old(output)@.len() >= 16,
        ensures
            final(output)@ == written(
                le_bytes(self.exec_context.value_transferred as nat, 16),
                old(output)@,
            ),
    {
        let value_transferred = encode_u128(self.exec_context.value_transferred);
        proof {
            crate::codec::lemma_le_bytes_len(self.exec_context.value_transferred as nat, 16);
        }
        set_output(output, value_transferred.as_slice())
    }

    /// Writes the address of the executing contract to the front of `output`.
    pub fn address(&self, output: &mut [u8])
        requires
            self.exec_context.callee is Some,
            self.callee_bytes().len() <= old(output)@.len(),
        ensures
            final(output)@ == written(self.callee_bytes(), old(output)@),
    {
        set_output(output, self.exec_context.callee())
    }

    /// Records the given debug message.
    pub fn debug_message(&mut self, message: &str)
        requires
            old(self).wf(),
        ensures
            final(self).wf(),
            final(self).debug_info.messages() == old(self).debug_info.messages().push(message@),
            final(self).debug_info.events() == old(self).debug_info.events(),
            final(self).debug_info.touched() == old(self).debug_info.touched(),
            forall|account: Seq<u8>|
                final(self).debug_info.reads(account) == old(self).debug_info.reads(account)
                    && final(self).debug_info.writes(account) == old(self).debug_info.writes(
                    account,
                ),
            final(self).database == old(self).database,
            final(self).exec_context == old(self).exec_context,
            final(self).chain_spec == old(self).chain_spec,
            final(self).chain_extension_handler == old(self).chain_extension_handler,
            final(self).contracts == old(self).contracts,
    {
        self.debug_info.record_debug_message(message.to_owned());
    }

    /// Conducts the BLAKE-2 256-bit hash and places the result into `output`.
    pub fn hash_blake2_256(input: &[u8], output: &mut [u8; 32])
        ensures
            final(output)@ == blake2b_256_digest(input@),
    {
        *output = blake2b_256(input);
    }

    /// Conducts the BLAKE-2 128-bit hash and places the result into `output`.
    pub fn hash_blake2_128(input: &[u8], output: &mut [u8; 16])
        ensures
            final(output)@ == blake2b_128_digest(input@),
    {
        *output = blake2b_128(input);
    }

    /// Conducts the SHA-2 256-bit hash and places the result into `output`.
    pub fn hash_sha2_256(input: &[u8], output: &mut [u8; 32])
        ensures
            final(output)@ == sha2_256_digest(input@),
    {
        *output = sha2_256(input);
    }

    /// Conducts the KECCAK 256-bit hash and places the result into `output`.
    pub fn hash_keccak_256(input: &[u8], output: &mut [u8; 32])
        ensures
            final(output)@ == keccak_256_digest(input@),
    {
        *output = keccak_256(input);
    }

    /// Writes the encoded number of the current block to the front of
    /// `output`.
    pub fn block_number(&self, output: &mut [u8])
        requires
            old(output)@.len() >= 4,
        ensures
            final(output)@ == written(
                le_bytes(self.exec_context.block_number as nat, 4),
                old(output)@,
            ),
    {
        let block_number = encode_u32(self.exec_context.block_number);
        proof {
            crate::codec::lemma_le_bytes_len(self.exec_context.block_number as nat, 4);
        }
        set_output(output, block_number.as_slice())
    }

    /// Writes the encoded timestamp of the current block to the front of
    /// `output`.
    pub fn block_timestamp(&self, output: &mut [u8])
        requires
            old(output)@.len() >= 8,
        ensures
            final(output)@ == written(
                le_bytes(self.exec_context.block_timestamp as nat, 8),
                old(output)@,
            ),
    {
        let block_timestamp = encode_u64(self.exec_context.block_timestamp);
        proof {
            crate::codec::lemma_le_bytes_len(self.exec_context.block_timestamp as nat, 8);
        }
        set_output(output, block_timestamp.as_slice())
    }

    /// Writes the encoded minimum balance that is required for creating an
    /// account to the front of `output`.
    pub fn minimum_balance(&self, output: &mut [u8])
        requires
            old(output)@.len() >= 16,
        ensures
            final(output)@ == written(
                le_bytes(self.chain_spec.minimum_balance as nat, 16),
                old(output)@,
            ),
    {
        let minimum_balance = encode_u128(self.chain_spec.minimum_balance);
        proof {
            crate::codec::lemma_le_bytes_len(self.chain_spec.minimum_balance as nat, 16);
        }
        set_output(output, minimum_balance.as_slice())
    }

    /// Gas is not metered off-chain: this answers that it is unsupported and
    /// leaves `output` as it was.
    pub fn gas_left(&self, output: &mut [u8]) -> (answer: Result<(), Unsupported>)
        ensures
            answer == Err::<(), Unsupported>(Unsupported::GasLeft),
            final(output)@ == old(output)@,
    {
        Err(Unsupported::GasLeft)
    }

    /// Contracts are not instantiated off-chain: this answers that it is
    /// unsupported and changes neither the engine nor the two buffers.
    pub fn instantiate(
        &mut self,
        _code_hash: &[u8],
        _gas_limit: u64,
        _endowment: &[u8],
        _input: &[u8],
        out_address: &mut [u8],
        out_return_value: &mut [u8],
        _salt: &[u8],
    ) -> (answer: Result<(), Unsupported>)
        ensures
            answer == Err::<(), Unsupported>(Unsupported::Instantiate),
            *final(self) == *old(self),
            final(out_address)@ == old(out_address)@,
            final(out_return_value)@ == old(out_return_value)@,
    {
        Err(Unsupported::Instantiate)
    }

    /// Contracts do not call each other off-chain: this answers that it is
    /// unsupported and changes neither the engine nor `output`.
    pub fn call(
        &mut self,
        _callee: &[u8],
        _gas_limit: u64,
        _value: &[u8],
        _input: &[u8],
        output: &mut [u8],
    ) -> (answer: Result<(), Unsupported>)
        ensures
            answer == Err::<(), Unsupported>(Unsupported::Call),
            *final(self) == *old(self),
            final(output)@ == old(output)@,
    {
        Err(Unsupported::Call)
    }

    /// Emulates gas price calculation: writes the encoded fee for `gas`
    /// units to the front of `output`. The fee stops at the largest balance.
    pub fn weight_to_fee(&self, gas: u64, output: &mut [u8])
        requires
            old(output)@.len() >= 16,
        ensures
            final(output)@ == written(
                le_bytes(fee_for(self.chain_spec.gas_price, gas) as nat, 16),
                old(output)@,
            ),
    {
        let fee = match self.chain_spec.gas_price.checked_mul(gas as u128) {
            Some(fee) => fee,
            None => u128::MAX,
        };
        let encoded = encode_u128(fee);
        proof {
            crate::codec::lemma_le_bytes_len(fee as nat, 16);
        }
        set_output(output, encoded.as_slice())
    }

    /// Calls the chain extension method registered at `func_id` with the
    /// encoded `input` and hands the status code and payload that it
    /// answered to [`write_extension_result`], whose answer this returns:
    /// the encoded result is written to `output` where the payload is no
    /// longer than the encoding can say and `output` holds the result, and
    /// else `output` stays as it was.
    pub fn call_chain_extension(&mut self, func_id: u32, input: &[u8], output: &mut [u8]) -> (done:
        bool)
        requires
            old(self).wf(),
            old(self).chain_extension_handler.ids().contains(func_id),
            input@.len() <= u32::MAX,
        ensures
            final(self).wf(),
            final(self).chain_extension_handler.ids() == old(self).chain_extension_handler.ids(),
            forall|other: u32|
                other != func_id && old(self).chain_extension_handler.ids().contains(other)
                    ==> #[trigger] final(self).chain_extension_handler.registration(other) == old(
                    self,
                ).chain_extension_handler.registration(other),
            exists|status: u32, payload: Seq<u8>|
                {
                    &&& #[trigger] old(self).chain_extension_handler.registration(func_id).extension.answers(
                        encoded_bytes(input@),
                        status,
                        payload,
                    )
                    &&& done == (payload.len() <= u32::MAX && extension_result(
                        status,
                        payload,
                    ).len() <= old(output)@.len())
                    &&& final(output)@ == if done {
                        written(extension_result(status, payload), old(output)@)
                    } else {
                        old(output)@
                    }
                },
            final(self).database == old(self).database,
            final(self).exec_context == old(self).exec_context,
            final(self).debug_info == old(self).debug_info,
            final(self).chain_spec == old(self).chain_spec,
            final(self).contracts == old(self).contracts,
    {
        let encoded_input = encode_bytes(input);
        match self.chain_extension_handler.eval(func_id, encoded_input.as_slice()) {
            Ok((status_code, out)) => {
                write_extension_result(status_code, out, output)
            },
            Err(_) => false,
        }
    }

    /// Recovers the compressed ECDSA public key for given `signature` and
    /// `message_hash`, and stores the result in `output`. Where the last
    /// byte of the signature stands for no recovery id, or no key is
    /// recovered, recovery has failed and `output` stays as it was. A key
    /// that was recovered starts with the byte 2 or 3.
    pub fn ecdsa_recover(
        &mut self,
        signature: &[u8; 65],
        message_hash: &[u8; 32],
        output: &mut [u8; 33],
    ) -> (outcome: Result<(), Error>)
        ensures
            match recovery_of(signature@, message_hash@) {
                Some(key) => outcome == Ok::<(), Error>(()) && final(output)@ == key,
                None => outcome == Err::<(), Error>(Error::EcdsaRecoveryFailed) && *final(output)
                    == *old(output),
            },
            outcome is Ok ==> is_compressed_key(final(output)@),
            *final(self) == *old(self),
    {
        let last = signature[64];
        let recovery_byte = if last > 26 {
            last - 27
        } else {
            last
        };
        if recovery_byte > 3 {
            return Err(Error::EcdsaRecoveryFailed);
        }
        let key = recover_compressed(signature, recovery_byte, message_hash);
        deliver_recovered_key(key, output)
    }

    /// Registers the entry points `contract` for the hash and returns the
    /// entry that was registered for it before, if any. The entries of other
    /// hashes stay.
    pub fn register_entry_points(&mut self, hash: &[u8], contract: Contract) -> (previous: Option<
        Contract,
    >)
        requires
            old(self).wf(),
        ensures
            final(self).wf(),
            final(self).contracts.deployed@ == old(self).contracts.deployed@.insert(hash@, contract),
            final(self).contracts.deployed@.contains_key(hash@),
            final(self).contracts.deployed@[hash@] == contract,
            forall|other: Seq<u8>|
                other != hash@ ==> (#[trigger] final(self).contracts.deployed@.contains_key(other)
                    == old(self).contracts.deployed@.contains_key(other)),
            forall|other: Seq<u8>|
                other != hash@ && old(self).contracts.deployed@.contains_key(other)
                    ==> #[trigger] final(self).contracts.deployed@[other] == old(
                    self,
                ).contracts.deployed@[other],
            match previous {
                Some(entry) => old(self).contracts.deployed@.contains_key(hash@) && entry == old(
                    self,
                ).contracts.deployed@[hash@],
                None => !old(self).contracts.deployed@.contains_key(hash@),
            },
            final(self).contracts.instantiated == old(self).contracts.instantiated,
            final(self).contracts.entrance_count == old(self).contracts.entrance_count,
            final(self).contracts.allow_reentry == old(self).contracts.allow_reentry,
            final(self).database == old(self).database,
            final(self).exec_context == old(self).exec_context,
            final(self).debug_info == old(self).debug_info,
            final(self).chain_spec == old(self).chain_spec,
            final(self).chain_extension_handler == old(self).chain_extension_handler,
    {
        self.contracts.deployed.insert(slice_to_vec(hash), contract)
    }

    /// Registers the contract into the local storage and returns the entry
    /// that was registered for the hash before, if any. Afterwards the hash
    /// has the entry made of `deploy` and `call`, and every other hash has
    /// the entry it had.
    pub fn register_contract(
        &mut self,
        hash: &[u8],
        deploy: Box<dyn EntryPoint>,
        call: Box<dyn EntryPoint>,
    ) -> (previous: Option<Contract>)
        requires
            old(self).wf(),
        ensures
            final(self).wf(),
            final(self).contracts.deployed@ == old(self).contracts.deployed@.insert(
                hash@,
                (Contract { deploy, call }),
            ),
            final(self).contracts.deployed@.contains_key(hash@),
            final(self).contracts.deployed@[hash@] == (Contract { deploy, call }),
            forall|other: Seq<u8>|
                other != hash@ ==> (#[trigger] final(self).contracts.deployed@.contains_key(other)
                    == old(self).contracts.deployed@.contains_key(other)),
            forall|other: Seq<u8>|
                other != hash@ && old(self).contracts.deployed@.contains_key(other)
                    ==> #[trigger] final(self).contracts.deployed@[other] == old(
                    self,
                ).contracts.deployed@[other],
            match previous {
                Some(entry) => old(self).contracts.deployed@.contains_key(hash@) && entry == old(
                    self,
                ).contracts.deployed@[hash@],
                None => !old(self).contracts.deployed@.contains_key(hash@),
            },
            final(self).contracts.instantiated == old(self).contracts.instantiated,
            final(self).contracts.entrance_count == old(self).contracts.entrance_count,
            final(self).contracts.allow_reentry == old(self).contracts.allow_reentry,
            final(self).database == old(self).database,
            final(self).exec_context == old(self).exec_context,
            final(self).debug_info == old(self).debug_info,
            final(self).chain_spec == old(self).chain_spec,
            final(self).chain_extension_handler == old(self).chain_extension_handler,
    {
        let contract = Contract { deploy, call };
        self.register_entry_points(hash, contract)
    }

    /// Tells whether the count of open calls into `callee` has room for a
    /// call by `caller` with these flags. A call that is turned away is not
    /// counted and so always fits.
    pub fn call_fits(&self, caller: &Option<AccountId>, callee: &[u8], call_flags: u32) -> (fits:
        bool)
        requires
            self.wf(),
        ensures
            fits == ({
                let ledger = self.contracts.reentrancy().granted(
                    account_bytes(*caller),
                    allows_reentry(call_flags),
                );
                !ledger.trapped(callee@) ==> ledger.count(callee@) < u32::MAX
            }),
    {
        if self.contracts.get_entrance_count(slice_to_vec(callee)) < u32::MAX {
            return true;
        }
        let allowed = match caller {
            Some(account) => {
                if bytes_eq(account.as_bytes(), callee) {
                    (call_flags & 8) != 0
                } else {
                    self.contracts.get_allow_reentry(slice_to_vec(callee))
                }
            },
            None => self.contracts.get_allow_reentry(slice_to_vec(callee)),
        };
        !allowed
    }

    /// Applies the call flags before a call into `callee` and returns the
    /// input that the callee receives.
    ///
    /// The caller, if there is one, is given or denied the permission to be
    /// entered again, as the flags say. Then the call is turned away, with
    /// the callee trapped, where a call into the callee is open and the
    /// callee may not be entered again. Else the call is counted as open, and
    /// the callee receives the caller's own input where the flags forward or
    /// clone it, and the given input where they do neither. Forwarding
    /// empties the caller's input.
    pub fn apply_code_flags_before_call(
        &mut self,
        caller: Option<AccountId>,
        callee: Vec<u8>,
        call_flags: u32,
        input: Vec<u8>,
    ) -> (outcome: Result<Vec<u8>, Error>)
        requires
            old(self).wf(),
            ({
                let ledger = old(self).contracts.reentrancy().granted(
                    account_bytes(caller),
                    allows_reentry(call_flags),
                );
                !ledger.trapped(callee@) ==> ledger.count(callee@) < u32::MAX
            }),
        ensures
            final(self).wf(),
            ({
                let ledger = old(self).contracts.reentrancy().granted(
                    account_bytes(caller),
                    allows_reentry(call_flags),
                );
                if ledger.trapped(callee@) {
                    &&& outcome matches Err(error)
                    &&& error == Error::CalleeTrapped
                    &&& final(self).contracts.reentrancy() == ledger
                    &&& final(self).exec_context == old(self).exec_context
                } else {
                    &&& outcome matches Ok(new_input)
                    &&& new_input@ == effective_input(
                        call_flags,
                        old(self).exec_context.input@,
                        input@,
                    )
                    &&& final(self).contracts.reentrancy() == ledger.entered(callee@)
                    &&& final(self).exec_context.same_but_input(&old(self).exec_context)
                    &&& final(self).exec_context.input@ == input_after_call(
                        call_flags,
                        old(self).exec_context.input@,
                    )
                }
            }),
            final(self).contracts.instantiated == old(self).contracts.instantiated,
            final(self).contracts.deployed == old(self).contracts.deployed,
            final(self).database == old(self).database,
            final(self).debug_info == old(self).debug_info,
            final(self).chain_spec == old(self).chain_spec,
            final(self).chain_extension_handler == old(self).chain_extension_handler,
    {
        let forward_input = (call_flags & 1) != 0;
        let clone_input = (call_flags & 2) != 0;
        let allow_reentry = (call_flags & 8) != 0;

        match caller {
            Some(caller) => {
                self.contracts.set_allow_reentry(slice_to_vec(caller.as_bytes()), allow_reentry);
            },
            None => {},
        }

        if !self.contracts.get_allow_reentry(slice_to_vec(callee.as_slice()))
            && self.contracts.get_entrance_count(slice_to_vec(callee.as_slice())) > 0 {
            return Err(Error::CalleeTrapped);
        }
        match self.contracts.increase_entrance_count(callee) {
            Ok(_) => {},
            Err(error) => {
                return Err(error);
            },
        }

        let new_input = if forward_input {
            let previous_input = slice_to_vec(self.exec_context.input.as_slice());
            self.exec_context.input.clear();
            previous_input
        } else if clone_input {
            slice_to_vec(self.exec_context.input.as_slice())
        } else {
            input
        };
        Ok(new_input)
    }

    /// Applies the call flags after the call into `callee` has returned.
    ///
    /// A tail call makes the callee's output the output of the context. Then
    /// the call is counted as closed; where none was open the callee has
    /// trapped. Else the permission that the caller may have been given ends
    /// with the call.
    pub fn apply_code_flags_after_call(
        &mut self,
        caller: Option<AccountId>,
        callee: Vec<u8>,
        call_flags: u32,
        output: Vec<u8>,
    ) -> (outcome: Result<(), Error>)
        requires
            old(self).wf(),
        ensures
            final(self).wf(),
            outcome == if old(self).contracts.reentrancy().count(callee@) == 0 {
                Err::<(), Error>(Error::CalleeTrapped)
            } else {
                Ok::<(), Error>(())
            },
            final(self).contracts.reentrancy() == if old(self).contracts.reentrancy().count(callee@)
                == 0 {
                old(self).contracts.reentrancy()
            } else {
                old(self).contracts.reentrancy().left(callee@).revoked(account_bytes(caller))
            },
            final(self).exec_context.same_but_output(&old(self).exec_context),
            final(self).exec_context.output@ == if is_tail_call(call_flags) {
                output@
            } else {
                old(self).exec_context.output@
            },
            final(self).contracts.instantiated == old(self).contracts.instantiated,
            final(self).contracts.deployed == old(self).contracts.deployed,
            final(self).database == old(self).database,
            final(self).debug_info == old(self).debug_info,
            final(self).chain_spec == old(self).chain_spec,
            final(self).chain_extension_handler == old(self).chain_extension_handler,
    {
        let tail_call = (call_flags & 4) != 0;
        if tail_call {
            self.exec_context.output = output;
        }
        match self.contracts.decrease_entrance_count(callee) {
            Ok(_) => {},
            Err(error) => {
                return Err(error);
            },
        }
        match caller {
            Some(caller) => {
                self.contracts.allow_reentry.remove(caller.as_bytes());
            },
            None => {},
        }
        Ok(())
    }
}

/// What a chain extension's status code and payload are encoded as: the four
/// bytes of the code, then the payload as an encoded byte string.
pub open spec fn extension_result(status: u32, payload: Seq<u8>) -> Seq<u8> {
    le_bytes(status as nat, 4) + encoded_bytes(payload)
}

/// Writes the encoded result of a chain extension to the front of `output`
/// and says whether it did: it does not where the payload is longer than the
/// encoding can say or `output` cannot hold the encoded result, and then
/// `output` stays as it was.
pub fn write_extension_result(status: u32, payload: Vec<u8>, output: &mut [u8]) -> (done: bool)
    ensures
        done == (payload@.len() <= u32::MAX && extension_result(status, payload@).len() <= old(
            output,
        ).len()),
        final(output)@ == if done {
            written(extension_result(status, payload@), old(output)@)
        } else {
            old(output)@
        },
{
    if payload.len() > u32::MAX as usize {
        return false;
    }
    let encoded = encode_status_and_bytes(status, payload);
    if encoded.len() > output.len() {
        return false;
    }
    set_output(output, encoded.as_slice());
    true
}

} // verus!
