//! What holds of the engine's operations taken together.

use vstd::prelude::*;
use crate::codec::{decoded_balance, le_bytes, lemma_balance_round_trip};
use crate::contracts::Reentrancy;
use crate::database::balance_in;
use crate::ecdsa::recovery_of;
use crate::ext::{
    allows_reentry, balances_after_transfer, clones_input, effective_input, fee_for,
    forwards_input, input_after_call, is_tail_call, Engine,
};
use crate::topics::{event_topics, topic_count, topic_width, topics_well_formed};
use crate::types::Balance;

verus! {

/// A transfer takes the amount from the payer and gives it to the payee: what
/// the two own together stays the same, and no other account changes. Where
/// payer and payee are one account, its balance stays as it was.
pub proof fn law_transfer_conserves(
    balances: Map<Seq<u8>, Balance>,
    payer: Seq<u8>,
    dest: Seq<u8>,
    amount: Balance,
)
    requires
        balances.contains_key(payer),
        amount <= balances[payer],
        payer != dest ==> balance_in(balances, dest) + amount <= u128::MAX,
    ensures
        ({
            let after = balances_after_transfer(balances, payer, dest, amount);
            &&& payer != dest ==> after[payer] == balances[payer] - amount && after[dest]
                == balance_in(balances, dest) + amount
            &&& payer == dest ==> after[payer] == balances[payer]
            &&& pair_total(after, payer, dest) == pair_total(balances, payer, dest)
            &&& forall|other: Seq<u8>|
                other != payer && other != dest ==> after.contains_key(other)
                    == balances.contains_key(other) && balance_in(after, other) == balance_in(
                    balances,
                    other,
                )
        }),
{
}

/// What two accounts own together; one account named twice counts once.
pub open spec fn pair_total(balances: Map<Seq<u8>, Balance>, first: Seq<u8>, second: Seq<u8>) -> int {
    if first == second {
        balance_in(balances, first) as int
    } else {
        balance_in(balances, first) + balance_in(balances, second)
    }
}

/// A transfer of the executing contract to itself succeeds where its balance
/// covers the amount, and leaves every balance as it was.
pub proof fn law_transfer_to_oneself(balances: Map<Seq<u8>, Balance>, payer: Seq<u8>, amount: Balance)
    requires
        balances.contains_key(payer),
        amount <= balances[payer],
    ensures
        balances_after_transfer(balances, payer, payer, amount) == balances,
{
    assert(balances_after_transfer(balances, payer, payer, amount) =~= balances);
}

/// An amount that the executing contract can pay, encoded in sixteen bytes,
/// is the amount that a transfer moves.
pub proof fn law_encoded_amount_is_transferred(engine: Engine, amount: Balance)
    requires
        engine.exec_context.callee is Some,
        engine.database.balances().contains_key(engine.callee_bytes()),
        amount <= engine.database.balances()[engine.callee_bytes()],
    ensures
        engine.transfer_amount(le_bytes(amount as nat, 16)) == Some(amount),
{
    lemma_balance_round_trip(amount, Seq::<u8>::empty());
    assert(le_bytes(amount as nat, 16) + Seq::<u8>::empty() =~= le_bytes(amount as nat, 16));
}

/// An amount encoded in fewer than sixteen bytes is malformed: a transfer of
/// it moves nothing.
pub proof fn law_malformed_amount_is_not_transferred(engine: Engine, value: Seq<u8>)
    requires
        value.len() < 16,
    ensures
        decoded_balance(value) is None,
        engine.transfer_amount(value) is None,
{
}

/// In an engine as it is created, no key holds a value.
pub proof fn law_fresh_storage_is_empty(engine: Engine, key: Seq<u8>)
    requires
        engine.is_fresh(),
    ensures
        engine.stored(key) is None,
{
}

/// A key that was written holds the value written last, and its length is
/// what the next write reports; a key that was cleared holds nothing.
pub proof fn law_storage_round_trip(
    before: Engine,
    written: Engine,
    cleared: Engine,
    key: Seq<u8>,
    value: Seq<u8>,
)
    requires
        written.exec_context == before.exec_context,
        cleared.exec_context == before.exec_context,
        written.database.cells() == before.database.cells().insert(
            (before.callee_bytes(), key),
            value,
        ),
        cleared.database.cells() == written.database.cells().remove((before.callee_bytes(), key)),
    ensures
        written.stored(key) == Some(value),
        cleared.stored(key) is None,
        forall|other: Seq<u8>| other != key ==> written.stored(other) == before.stored(other),
        forall|other: Seq<u8>| other != key ==> cleared.stored(other) == before.stored(other),
{
}

/// What one account writes or clears under a key leaves what any other
/// account holds under the same key as it was.
pub proof fn law_storage_is_kept_apart(
    before: Engine,
    after: Engine,
    owner: Seq<u8>,
    other: Seq<u8>,
    key: Seq<u8>,
    value: Seq<u8>,
)
    requires
        owner != other,
        after.database.cells() == before.database.cells().insert((owner, key), value)
            || after.database.cells() == before.database.cells().remove((owner, key)),
    ensures
        after.database.cells().contains_key((other, key)) == before.database.cells().contains_key(
            (other, key),
        ),
        before.database.cells().contains_key((other, key)) ==> after.database.cells()[(other, key)]
            == before.database.cells()[(other, key)],
{
}

/// A call into a contract that has an open call and no permission to be
/// entered again is turned away.
pub proof fn law_reentry_without_permission_is_trapped(
    ledger: Reentrancy,
    caller: Option<Seq<u8>>,
    callee: Seq<u8>,
    call_flags: u32,
)
    requires
        ledger.count(callee) >= 1,
        !ledger.allowed(callee),
        caller != Some(callee) || !allows_reentry(call_flags),
    ensures
        ledger.granted(caller, allows_reentry(call_flags)).trapped(callee),
{
}

/// While a call is open that its caller made with the permission to be
/// entered again, a nested call into that caller by another account goes
/// ahead.
pub proof fn law_granted_reentry_goes_ahead(
    ledger: Reentrancy,
    outer_caller: Seq<u8>,
    outer_callee: Seq<u8>,
    nested_flags: u32,
)
    requires
        outer_caller != outer_callee,
    ensures
        !ledger.granted(Some(outer_caller), true).entered(outer_callee).granted(
            Some(outer_callee),
            allows_reentry(nested_flags),
        ).trapped(outer_caller),
{
}

/// When a call returns, the permission of its caller ends: a later call into
/// that caller, while a call into it is open and without a new permission, is
/// turned away.
pub proof fn law_permission_ends_with_the_call(
    ledger: Reentrancy,
    caller: Seq<u8>,
    callee: Seq<u8>,
    later_caller: Option<Seq<u8>>,
    later_flags: u32,
)
    requires
        ledger.left(callee).count(caller) >= 1,
        later_caller != Some(caller) || !allows_reentry(later_flags),
    ensures
        !ledger.left(callee).revoked(Some(caller)).allowed(caller),
        ledger.left(callee).revoked(Some(caller)).granted(
            later_caller,
            allows_reentry(later_flags),
        ).trapped(caller),
{
}

/// Opening a call and closing it again leaves the number of open calls as it
/// was.
pub proof fn law_enter_then_leave_restores_count(ledger: Reentrancy, callee: Seq<u8>)
    requires
        ledger.count(callee) < u32::MAX,
    ensures
        ledger.entered(callee).count(callee) == ledger.count(callee) + 1,
        ledger.entered(callee).left(callee).count(callee) == ledger.count(callee),
        forall|other: Seq<u8>|
            other != callee ==> ledger.entered(callee).left(callee).count(other) == ledger.count(
                other,
            ),
        ledger.entered(callee).left(callee).allow_reentry == ledger.allow_reentry,
{
}

/// A call that was let in and has returned leaves every count of open calls
/// as it was before the call, and its caller without the permission; the
/// permissions of all other accounts are as they were.
pub proof fn law_call_round_trip(
    ledger: Reentrancy,
    caller: Option<Seq<u8>>,
    callee: Seq<u8>,
    call_flags: u32,
)
    requires
        ledger.granted(caller, allows_reentry(call_flags)).count(callee) < u32::MAX,
    ensures
        ({
            let after = ledger.granted(caller, allows_reentry(call_flags)).entered(callee).left(
                callee,
            ).revoked(caller);
            &&& forall|account: Seq<u8>| after.count(account) == ledger.count(account)
            &&& forall|account: Seq<u8>|
                Some(account) != caller ==> after.allowed(account) == ledger.allowed(account)
            &&& caller matches Some(account) ==> !after.allowed(account)
        }),
{
}

/// The call flags are the four lowest bits of the flag word, in this order:
/// forward the input, clone the input, tail call, allow reentry.
pub proof fn law_call_flag_bits(call_flags: u32)
    ensures
        forwards_input(call_flags) == (call_flags % 2 == 1),
        clones_input(call_flags) == ((call_flags / 2) % 2 == 1),
        is_tail_call(call_flags) == ((call_flags / 4) % 2 == 1),
        allows_reentry(call_flags) == ((call_flags / 8) % 2 == 1),
{
    assert((call_flags & 1 != 0) == (call_flags % 2 == 1)) by (bit_vector);
    assert((call_flags & 2 != 0) == ((call_flags / 2) % 2 == 1)) by (bit_vector);
    assert((call_flags & 4 != 0) == ((call_flags / 4) % 2 == 1)) by (bit_vector);
    assert((call_flags & 8 != 0) == ((call_flags / 8) % 2 == 1)) by (bit_vector);
}

/// Forwarding wins over cloning, and both over the input given with the
/// call.
pub proof fn law_effective_input(call_flags: u32, own: Seq<u8>, given: Seq<u8>)
    ensures
        call_flags % 4 == 0 ==> effective_input(call_flags, own, given) == given,
        call_flags % 4 != 0 ==> effective_input(call_flags, own, given) == own,
{
    law_call_flag_bits(call_flags);
    assert((call_flags % 4 == 0) == (call_flags % 2 != 1 && (call_flags / 2) % 2 != 1))
        by (bit_vector);
}

/// A call that forwards the input hands the caller's own input to the callee
/// and leaves the caller with none; one that clones it and does not forward
/// hands the same on and leaves it in place; one that does neither hands on
/// the input given with the call and leaves the caller's own in place.
pub proof fn law_input_by_call_flags(call_flags: u32, own: Seq<u8>, given: Seq<u8>)
    ensures
        forwards_input(call_flags) ==> effective_input(call_flags, own, given) == own
            && input_after_call(call_flags, own) == Seq::<u8>::empty(),
        !forwards_input(call_flags) && clones_input(call_flags) ==> effective_input(
            call_flags,
            own,
            given,
        ) == own && input_after_call(call_flags, own) == own,
        !forwards_input(call_flags) && !clones_input(call_flags) ==> effective_input(
            call_flags,
            own,
            given,
        ) == given && input_after_call(call_flags, own) == own,
{
}

/// The last byte of a signature may count the recovery id from 0 or from 27:
/// two signatures that differ in this alone recover the same key.
pub proof fn law_recovery_byte_conventions(
    plain: Seq<u8>,
    shifted: Seq<u8>,
    message_hash: Seq<u8>,
)
    requires
        plain.len() == 65,
        shifted.len() == 65,
        plain.subrange(0, 64) == shifted.subrange(0, 64),
        plain[64] <= 26,
        shifted[64] == plain[64] + 27,
    ensures
        recovery_of(plain, message_hash) == recovery_of(shifted, message_hash),
{
}

/// Encoded topics that announce no topic hold none, whatever follows the
/// count; two topics of 32 bytes each are the two halves of the 64 bytes that
/// follow the count.
pub proof fn law_topics_split_evenly(encoded: Seq<u8>)
    requires
        encoded.len() >= 1,
    ensures
        encoded[0] == 0 ==> topics_well_formed(encoded) && event_topics(encoded).len() == 0,
        encoded[0] == 8 && encoded.len() == 65 ==> topics_well_formed(encoded) && event_topics(
            encoded,
        ) == seq![encoded.subrange(1, 33), encoded.subrange(33, 65)],
{
    if encoded[0] == 8 && encoded.len() == 65 {
        assert(topic_count(encoded) == 2);
        assert(topic_width(encoded) == 32);
        let topics = event_topics(encoded);
        assert(topics.len() == 2);
        assert(topics[0] == encoded.subrange(1 + 0 * topic_width(encoded), 1 + (0 + 1) * topic_width(encoded)));
        assert(topics[1] == encoded.subrange(1 + 1 * topic_width(encoded), 1 + (1 + 1) * topic_width(encoded)));
        assert(event_topics(encoded) =~= seq![encoded.subrange(1, 33), encoded.subrange(33, 65)]);
    }
}

/// A fee never wraps around: it is the product of price and gas where a
/// balance can hold that, and the largest balance where not.
pub proof fn law_fee_saturates(gas_price: Balance, gas: u64)
    ensures
        gas_price * gas <= u128::MAX ==> fee_for(gas_price, gas) == gas_price * gas,
        gas_price * gas > u128::MAX ==> fee_for(gas_price, gas) == u128::MAX,
        gas > 0 && gas_price > u128::MAX / (gas as u128) ==> fee_for(gas_price, gas) == u128::MAX,
{
    if gas > 0 && gas_price > u128::MAX / (gas as u128) {
        assert(gas_price * gas > u128::MAX) by (nonlinear_arith)
            requires
                gas > 0,
                gas_price > u128::MAX / (gas as u128),
        ;
    }
}

} // verus!
