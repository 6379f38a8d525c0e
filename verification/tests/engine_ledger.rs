use ink_engine::error::Error;
use ink_engine::ext::Engine;
use ink_engine::types::AccountId;

fn engine_with_callee(callee: &[u8]) -> Engine {
    let mut engine = Engine::new();
    engine.exec_context.callee = Some(AccountId::from_bytes(callee));
    engine
}

#[test]
fn transfer_moves_half_of_the_minimum_balance() {
    let x = [1u8; 32];
    let y = [2u8; 32];
    let mut engine = engine_with_callee(&x);
    engine.database.set_balance(&x, 1000000);
    assert_eq!(engine.database.find_balance(&y), None);

    let amount = 500000u128.to_le_bytes();
    assert_eq!(engine.transfer(&y, &amount), Ok(()));
    assert_eq!(engine.database.get_balance(&x), 500000);
    assert_eq!(engine.database.get_balance(&y), 500000);
    assert_eq!(engine.database.find_balance(&y), Some(500000));

    let mut out = vec![0u8; 16];
    engine.minimum_balance(&mut out);
    assert_eq!(out, 1000000u128.to_le_bytes().to_vec());
}

#[test]
fn minimum_balance_follows_the_chain_spec() {
    let mut engine = Engine::new();
    engine.chain_spec.minimum_balance = 42;
    let mut out = vec![0xffu8; 20];
    engine.minimum_balance(&mut out);
    let mut expected = 42u128.to_le_bytes().to_vec();
    expected.extend_from_slice(&[0xff; 4]);
    assert_eq!(out, expected);
}

#[test]
fn transfer_conserves_the_sum_of_both_balances() {
    let a = [3u8; 32];
    let b = [4u8; 32];
    let mut engine = engine_with_callee(&a);
    engine.database.set_balance(&a, 700);
    engine.database.set_balance(&b, 55);
    assert_eq!(engine.transfer(&b, &200u128.to_le_bytes()), Ok(()));
    assert_eq!(engine.database.get_balance(&a), 500);
    assert_eq!(engine.database.get_balance(&b), 255);
    assert_eq!(
        engine.database.get_balance(&a) + engine.database.get_balance(&b),
        755
    );
}

#[test]
fn transfer_of_zero_is_allowed() {
    let a = [3u8; 32];
    let b = [4u8; 32];
    let mut engine = engine_with_callee(&a);
    engine.database.set_balance(&a, 7);
    assert_eq!(engine.transfer(&b, &0u128.to_le_bytes()), Ok(()));
    assert_eq!(engine.database.get_balance(&a), 7);
    assert_eq!(engine.database.find_balance(&b), Some(0));
}

#[test]
fn transfer_ignores_bytes_after_the_amount() {
    let a = [3u8; 32];
    let b = [4u8; 32];
    let mut engine = engine_with_callee(&a);
    engine.database.set_balance(&a, 300);
    let mut value = 258u128.to_le_bytes().to_vec();
    value.push(0xaa);
    assert_eq!(engine.transfer(&b, &value), Ok(()));
    assert_eq!(engine.database.get_balance(&a), 42);
    assert_eq!(engine.database.get_balance(&b), 258);
}

#[test]
fn transfer_of_a_malformed_amount_fails_and_moves_nothing() {
    let a = [5u8; 32];
    let b = [6u8; 32];
    let mut engine = engine_with_callee(&a);
    engine.database.set_balance(&a, 1000);
    engine.database.set_balance(&b, 10);
    assert_eq!(engine.transfer(&b, &[1, 2, 3]), Err(Error::TransferFailed));
    assert_eq!(engine.transfer(&b, &[]), Err(Error::TransferFailed));
    assert_eq!(engine.transfer(&b, &[0u8; 15]), Err(Error::TransferFailed));
    assert_eq!(engine.database.get_balance(&a), 1000);
    assert_eq!(engine.database.get_balance(&b), 10);
}

#[test]
fn transfer_fails_without_a_balance_that_covers_it() {
    let a = [5u8; 32];
    let b = [6u8; 32];
    let mut engine = engine_with_callee(&a);
    assert_eq!(
        engine.transfer(&b, &1u128.to_le_bytes()),
        Err(Error::TransferFailed)
    );
    engine.database.set_balance(&a, 10);
    assert_eq!(
        engine.transfer(&b, &11u128.to_le_bytes()),
        Err(Error::TransferFailed)
    );
    assert_eq!(engine.database.get_balance(&a), 10);
    assert_eq!(engine.database.find_balance(&b), None);
}

#[test]
fn transfer_to_oneself_leaves_the_balance() {
    let a = [5u8; 32];
    let mut engine = engine_with_callee(&a);
    engine.database.set_balance(&a, 10);
    assert_eq!(engine.transfer(&a, &4u128.to_le_bytes()), Ok(()));
    assert_eq!(engine.database.get_balance(&a), 10);
    assert_eq!(engine.transfer(&a, &10u128.to_le_bytes()), Ok(()));
    assert_eq!(engine.database.get_balance(&a), 10);
    assert_eq!(
        engine.transfer(&a, &11u128.to_le_bytes()),
        Err(Error::TransferFailed)
    );
    assert_eq!(engine.database.get_balance(&a), 10);

    engine.database.set_balance(&a, u128::MAX);
    assert!(engine.transfer_fits(&a, &u128::MAX.to_le_bytes()));
    assert_eq!(engine.transfer(&a, &u128::MAX.to_le_bytes()), Ok(()));
    assert_eq!(engine.database.get_balance(&a), u128::MAX);
}

#[test]
fn terminate_with_oneself_as_beneficiary_keeps_the_balance() {
    let x = [1u8; 32];
    let mut engine = engine_with_callee(&x);
    engine.database.set_balance(&x, 10);
    let report = engine.terminate(&x);
    let mut expected = 10u128.to_le_bytes().to_vec();
    expected.push(32 << 2);
    expected.extend_from_slice(&x);
    assert_eq!(report, expected);
    assert_eq!(engine.database.get_balance(&x), 10);
}

#[test]
fn terminate_reports_balance_and_beneficiary() {
    let x = [1u8; 32];
    let y = [2u8; 32];
    let mut engine = engine_with_callee(&x);
    engine.database.set_balance(&x, 1000);
    engine.database.set_balance(&y, 1);
    let report = engine.terminate(&y);
    let mut expected = 1000u128.to_le_bytes().to_vec();
    expected.push(32 << 2);
    expected.extend_from_slice(&y);
    assert_eq!(report, expected);
    assert_eq!(engine.database.get_balance(&x), 0);
    assert_eq!(engine.database.get_balance(&y), 1001);
}

#[test]
fn balance_and_context_values_are_encoded_little_endian() {
    let x = [9u8; 32];
    let caller = [8u8; 32];
    let mut engine = engine_with_callee(&x);
    engine.exec_context.caller = Some(AccountId::from_bytes(&caller));
    engine.exec_context.value_transferred = 0x0102;
    engine.exec_context.block_number = 0x01020304;
    engine.exec_context.block_timestamp = 0x0102030405060708;
    engine.database.set_balance(&x, 258);

    let mut out = vec![0u8; 16];
    engine.balance(&mut out);
    assert_eq!(out, vec![2, 1, 0, 0, 0, 0, 0, 0, 0, 0, 0, 0, 0, 0, 0, 0]);

    let mut out = vec![0xeeu8; 17];
    engine.value_transferred(&mut out);
    assert_eq!(
        out,
        vec![2, 1, 0, 0, 0, 0, 0, 0, 0, 0, 0, 0, 0, 0, 0, 0, 0xee]
    );

    let mut out = vec![0u8; 4];
    engine.block_number(&mut out);
    assert_eq!(out, vec![4, 3, 2, 1]);

    let mut out = vec![0u8; 8];
    engine.block_timestamp(&mut out);
    assert_eq!(out, vec![8, 7, 6, 5, 4, 3, 2, 1]);

    let mut out = vec![0u8; 33];
    engine.caller(&mut out);
    assert_eq!(&out[..32], &caller[..]);
    assert_eq!(out[32], 0);

    let mut out = vec![0u8; 32];
    engine.address(&mut out);
    assert_eq!(out, x.to_vec());
}

#[test]
fn weight_to_fee_multiplies_by_the_gas_price() {
    let engine = Engine::new();
    let mut out = vec![0u8; 16];
    engine.weight_to_fee(2, &mut out);
    assert_eq!(out, 200u128.to_le_bytes().to_vec());
    engine.weight_to_fee(0, &mut out);
    assert_eq!(out, 0u128.to_le_bytes().to_vec());
    engine.weight_to_fee(u64::MAX, &mut out);
    assert_eq!(out, (100u128 * u64::MAX as u128).to_le_bytes().to_vec());
}

#[test]
fn weight_to_fee_saturates() {
    let mut engine = Engine::new();
    engine.chain_spec.gas_price = u128::MAX / 2 + 1;
    let mut out = vec![0u8; 16];
    engine.weight_to_fee(2, &mut out);
    assert_eq!(out, vec![0xffu8; 16]);
    engine.weight_to_fee(u64::MAX, &mut out);
    assert_eq!(out, vec![0xffu8; 16]);
    engine.weight_to_fee(1, &mut out);
    assert_eq!(out, (u128::MAX / 2 + 1).to_le_bytes().to_vec());
}

#[test]
fn default_chain_spec() {
    let engine = Engine::default();
    assert_eq!(engine.chain_spec.gas_price, 100);
    assert_eq!(engine.chain_spec.minimum_balance, 1000000);
    assert_eq!(engine.chain_spec.block_time, 6);
}

#[test]
fn transfer_fits_unless_the_payee_would_overflow() {
    let a = [5u8; 32];
    let b = [6u8; 32];
    let mut engine = engine_with_callee(&a);
    engine.database.set_balance(&a, 10);
    engine.database.set_balance(&b, u128::MAX - 3);
    assert!(engine.transfer_fits(&b, &3u128.to_le_bytes()));
    assert!(!engine.transfer_fits(&b, &4u128.to_le_bytes()));
    assert!(engine.transfer_fits(&b, &11u128.to_le_bytes()));
    assert!(engine.transfer_fits(&b, &[1, 2, 3]));
    assert!(engine.transfer_fits(&a, &10u128.to_le_bytes()));
    assert_eq!(engine.transfer(&b, &3u128.to_le_bytes()), Ok(()));
    assert_eq!(engine.database.get_balance(&b), u128::MAX);
    assert_eq!(engine.database.get_balance(&a), 7);
}
