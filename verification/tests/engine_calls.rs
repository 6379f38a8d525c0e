use ink_engine::chain_extension::{
    ChainExtension, ChainExtensionHandler, ExtensionError, Registration,
};
use ink_engine::contracts::EntryPoint;
use ink_engine::error::{Error, ReturnCode};
use ink_engine::ext::{write_extension_result, Engine, Unsupported};
use ink_engine::topics::split_topics;
use ink_engine::types::AccountId;

const FORWARD_INPUT: u32 = 1;
const CLONE_INPUT: u32 = 2;
const TAIL_CALL: u32 = 4;
const ALLOW_REENTRY: u32 = 8;

fn id(byte: u8) -> AccountId {
    AccountId::from_bytes(&[byte; 32])
}

fn bytes(byte: u8) -> Vec<u8> {
    vec![byte; 32]
}

#[test]
fn reentrancy_is_trapped_unless_granted_and_the_grant_ends_with_the_call() {
    let mut engine = Engine::new();
    // Somebody calls C.
    assert_eq!(
        engine.apply_code_flags_before_call(None, bytes(3), 0, vec![]),
        Ok(vec![])
    );
    // C calls D without granting reentry, D calls back into C.
    assert!(engine
        .apply_code_flags_before_call(Some(id(3)), bytes(4), 0, vec![])
        .is_ok());
    assert_eq!(
        engine.apply_code_flags_before_call(Some(id(4)), bytes(3), 0, vec![]),
        Err(Error::CalleeTrapped)
    );
    assert_eq!(engine.contracts.get_entrance_count(bytes(3)), 1);
    assert_eq!(
        engine.apply_code_flags_after_call(Some(id(3)), bytes(4), 0, vec![]),
        Ok(())
    );

    // C calls D and grants reentry: the nested call into C goes ahead.
    assert!(engine
        .apply_code_flags_before_call(Some(id(3)), bytes(4), ALLOW_REENTRY, vec![])
        .is_ok());
    assert!(engine.contracts.get_allow_reentry(bytes(3)));
    assert!(engine
        .apply_code_flags_before_call(Some(id(4)), bytes(3), 0, vec![])
        .is_ok());
    assert_eq!(engine.contracts.get_entrance_count(bytes(3)), 2);
    assert_eq!(
        engine.apply_code_flags_after_call(Some(id(4)), bytes(3), 0, vec![]),
        Ok(())
    );
    assert_eq!(
        engine.apply_code_flags_after_call(Some(id(3)), bytes(4), ALLOW_REENTRY, vec![]),
        Ok(())
    );
    assert!(!engine.contracts.get_allow_reentry(bytes(3)));
    assert!(!engine.contracts.allow_reentry.contains_key(&bytes(3)));
    assert_eq!(engine.contracts.get_entrance_count(bytes(3)), 1);
    assert_eq!(engine.contracts.get_entrance_count(bytes(4)), 0);

    // A later nested call without a fresh grant is turned away again.
    assert!(engine
        .apply_code_flags_before_call(Some(id(3)), bytes(4), 0, vec![])
        .is_ok());
    assert_eq!(
        engine.apply_code_flags_before_call(Some(id(4)), bytes(3), 0, vec![]),
        Err(Error::CalleeTrapped)
    );
}

#[test]
fn after_call_without_an_open_call_is_trapped() {
    let mut engine = Engine::new();
    engine.contracts.set_allow_reentry(bytes(1), true);
    assert_eq!(
        engine.apply_code_flags_after_call(Some(id(1)), bytes(2), 0, vec![]),
        Err(Error::CalleeTrapped)
    );
    assert!(engine.contracts.get_allow_reentry(bytes(1)));
}

#[test]
fn forward_input_clears_the_input_and_clone_input_keeps_it() {
    let mut engine = Engine::new();
    engine.exec_context.input = vec![1, 2, 3];

    let given = engine
        .apply_code_flags_before_call(None, bytes(1), 0, vec![9])
        .unwrap();
    assert_eq!(given, vec![9]);
    assert_eq!(engine.exec_context.input, vec![1, 2, 3]);
    engine
        .apply_code_flags_after_call(None, bytes(1), 0, vec![])
        .unwrap();

    let cloned = engine
        .apply_code_flags_before_call(None, bytes(1), CLONE_INPUT, vec![9])
        .unwrap();
    assert_eq!(cloned, vec![1, 2, 3]);
    assert_eq!(engine.exec_context.input, vec![1, 2, 3]);
    engine
        .apply_code_flags_after_call(None, bytes(1), CLONE_INPUT, vec![])
        .unwrap();

    let forwarded = engine
        .apply_code_flags_before_call(None, bytes(1), FORWARD_INPUT | CLONE_INPUT, vec![9])
        .unwrap();
    assert_eq!(forwarded, vec![1, 2, 3]);
    assert_eq!(engine.exec_context.input, Vec::<u8>::new());
    engine
        .apply_code_flags_after_call(None, bytes(1), FORWARD_INPUT, vec![])
        .unwrap();

    let forwarded_again = engine
        .apply_code_flags_before_call(None, bytes(1), FORWARD_INPUT, vec![9])
        .unwrap();
    assert_eq!(forwarded_again, Vec::<u8>::new());
}

#[test]
fn tail_call_hands_the_output_on() {
    let mut engine = Engine::new();
    engine.exec_context.output = vec![1];
    engine
        .apply_code_flags_before_call(None, bytes(1), 0, vec![])
        .unwrap();
    engine
        .apply_code_flags_after_call(None, bytes(1), 0, vec![7, 7])
        .unwrap();
    assert_eq!(engine.exec_context.output, vec![1]);
    engine
        .apply_code_flags_before_call(None, bytes(1), TAIL_CALL, vec![])
        .unwrap();
    engine
        .apply_code_flags_after_call(None, bytes(1), TAIL_CALL, vec![7, 7])
        .unwrap();
    assert_eq!(engine.exec_context.output, vec![7, 7]);
}

#[test]
fn deposit_event_splits_two_topics() {
    let mut engine = Engine::new();
    let mut topics = vec![2u8 << 2];
    topics.extend_from_slice(&[0xaa; 32]);
    topics.extend_from_slice(&[0xbb; 32]);
    engine.deposit_event(&topics, &[1, 2, 3]);
    assert_eq!(engine.debug_info.event_count(), 1);
    let event = engine.debug_info.event(0);
    assert_eq!(event.topics, vec![vec![0xaau8; 32], vec![0xbbu8; 32]]);
    assert_eq!(event.data, vec![1, 2, 3]);
}

#[test]
fn deposit_event_without_topics() {
    let mut engine = Engine::new();
    engine.deposit_event(&[0], &[]);
    engine.deposit_event(&[0, 1, 2, 3], &[5]);
    assert_eq!(engine.debug_info.event_count(), 2);
    assert_eq!(engine.debug_info.event(0).topics, Vec::<Vec<u8>>::new());
    assert_eq!(engine.debug_info.event(0).data, Vec::<u8>::new());
    assert_eq!(engine.debug_info.event(1).topics, Vec::<Vec<u8>>::new());
    assert_eq!(engine.debug_info.event(1).data, vec![5]);
}

#[test]
fn split_topics_refuses_what_is_malformed() {
    assert_eq!(split_topics(&[]), None);
    assert_eq!(split_topics(&[1]), None);
    assert_eq!(split_topics(&[2, 0, 0, 0]), None);
    assert_eq!(split_topics(&[3, 0, 0, 0, 0]), None);
    assert_eq!(split_topics(&[4]), None);
    assert_eq!(split_topics(&[8, 1, 2, 3]), None);
    assert_eq!(split_topics(&[0]), Some(vec![]));
    assert_eq!(split_topics(&[4, 1, 2, 3]), Some(vec![vec![1, 2, 3]]));
    assert_eq!(
        split_topics(&[12, 1, 2, 3]),
        Some(vec![vec![1], vec![2], vec![3]])
    );
}

#[test]
fn debug_messages_are_recorded_in_order() {
    let mut engine = Engine::new();
    engine.debug_message("first");
    engine.debug_message("second");
    assert_eq!(engine.debug_info.message_count(), 2);
    assert_eq!(engine.debug_info.message(0), "first");
    assert_eq!(engine.debug_info.message(1), "second");
}

struct Echo {
    id: u32,
    status: u32,
}

impl ChainExtension for Echo {
    fn identifier(&self) -> u32 {
        self.id
    }

    fn func_id(&self) -> u32 {
        self.id
    }

    fn call(&mut self, input: &[u8], output: &mut Vec<u8>) -> u32 {
        output.extend_from_slice(input);
        self.status
    }
}

#[test]
fn chain_extension_result_is_encoded() {
    let mut engine = Engine::new();
    engine
        .chain_extension_handler
        .register(Box::new(Echo { id: 5, status: 7 }));
    assert!(engine.chain_extension_handler.is_registered(5));
    assert!(!engine.chain_extension_handler.is_registered(6));

    let mut out = vec![0xffu8; 12];
    assert!(engine.call_chain_extension(5, &[1, 2, 3], &mut out));
    assert_eq!(
        out,
        vec![7, 0, 0, 0, 4 << 2, 3 << 2, 1, 2, 3, 0xff, 0xff, 0xff]
    );

    let mut small = vec![0xffu8; 8];
    assert!(!engine.call_chain_extension(5, &[1, 2, 3], &mut small));
    assert_eq!(small, vec![0xffu8; 8]);
}

#[test]
fn chain_extension_registry() {
    let mut handler = ChainExtensionHandler::new();
    assert_eq!(
        handler.eval(1, &[]),
        Err(ExtensionError::MissingChainExtension)
    );
    handler.register(Box::new(Echo { id: 1, status: 10 }));
    handler.register(Box::new(Echo { id: 2, status: 20 }));
    assert_eq!(handler.eval(1, &[9]), Ok((10, vec![9])));
    assert_eq!(handler.eval(2, &[8]), Ok((20, vec![8])));
    handler.register(Box::new(Echo { id: 1, status: 11 }));
    assert_eq!(handler.eval(1, &[]), Ok((11, vec![])));
    assert_eq!(handler.eval(2, &[]), Ok((20, vec![])));
    assert_eq!(
        handler.eval(3, &[]),
        Err(ExtensionError::MissingChainExtension)
    );
}

#[test]
fn extension_result_with_a_longer_payload() {
    let mut out = vec![0u8; 80];
    assert!(write_extension_result(0x01020304, vec![0xab; 64], &mut out));
    let mut expected = vec![4, 3, 2, 1, 1, 1];
    expected.extend_from_slice(&[0xab; 64]);
    expected.extend_from_slice(&[0; 10]);
    assert_eq!(out, expected);

    let mut out = vec![0u8; 69];
    assert!(!write_extension_result(0, vec![0xab; 64], &mut out));
    assert_eq!(out, vec![0u8; 69]);
}

struct Nothing;

impl EntryPoint for Nothing {
    fn invoke(&self) {}
}

#[test]
fn register_contract_returns_the_previous_entry() {
    let mut engine = Engine::new();
    assert!(engine
        .register_contract(b"hash", Box::new(Nothing), Box::new(Nothing))
        .is_none());
    assert!(engine
        .register_contract(b"other", Box::new(Nothing), Box::new(Nothing))
        .is_none());
    assert!(engine
        .register_contract(b"hash", Box::new(Nothing), Box::new(Nothing))
        .is_some());
    assert!(engine.contracts.deployed.contains_key(b"hash"));
    assert!(!engine.contracts.deployed.contains_key(b"none"));
}

#[test]
fn return_codes() {
    assert_eq!(ReturnCode(0).into_result(), Ok(()));
    assert_eq!(ReturnCode(1).into_result(), Err(Error::CalleeTrapped));
    assert_eq!(ReturnCode(2).into_result(), Err(Error::CalleeReverted));
    assert_eq!(ReturnCode(3).into_result(), Err(Error::KeyNotFound));
    assert_eq!(ReturnCode(4).into_result(), Err(Error::Unknown));
    assert_eq!(ReturnCode(5).into_result(), Err(Error::TransferFailed));
    assert_eq!(ReturnCode(6).into_result(), Err(Error::Unknown));
    assert_eq!(ReturnCode(7).into_result(), Err(Error::CodeNotFound));
    assert_eq!(ReturnCode(8).into_result(), Err(Error::NotCallable));
    assert_eq!(ReturnCode(9).into_result(), Err(Error::LoggingDisabled));
    assert_eq!(ReturnCode(10).into_result(), Err(Error::Unknown));
    assert_eq!(ReturnCode(11).into_result(), Err(Error::EcdsaRecoveryFailed));
    assert_eq!(ReturnCode(12).into_result(), Err(Error::Unknown));
    assert_eq!(ReturnCode(u32::MAX).into_result(), Err(Error::Unknown));
    assert_eq!(ReturnCode(77).into_u32(), 77);
}

#[test]
fn errors_have_their_codes() {
    assert_eq!(Error::CalleeTrapped.code(), Some(1));
    assert_eq!(Error::CalleeReverted.code(), Some(2));
    assert_eq!(Error::KeyNotFound.code(), Some(3));
    assert_eq!(Error::TransferFailed.code(), Some(5));
    assert_eq!(Error::CodeNotFound.code(), Some(7));
    assert_eq!(Error::NotCallable.code(), Some(8));
    assert_eq!(Error::LoggingDisabled.code(), Some(9));
    assert_eq!(Error::EcdsaRecoveryFailed.code(), Some(11));
    assert_eq!(Error::Unknown.code(), None);
}

#[test]
fn extension_result_with_payloads_of_every_length_class() {
    let mut out = vec![0u8; 70000];

    assert!(write_extension_result(1, vec![], &mut out));
    assert_eq!(&out[..6], &[1, 0, 0, 0, 0, 0]);

    assert!(write_extension_result(1, vec![9; 63], &mut out));
    assert_eq!(&out[..6], &[1, 0, 0, 0, 63 << 2, 9]);

    assert!(write_extension_result(1, vec![7; 16383], &mut out));
    assert_eq!(&out[..7], &[1, 0, 0, 0, 0xfd, 0xff, 7]);
    assert_eq!(out[4 + 2 + 16383 - 1], 7);

    assert!(write_extension_result(1, vec![5; 16384], &mut out));
    assert_eq!(&out[..9], &[1, 0, 0, 0, 2, 0, 1, 0, 5]);
    assert_eq!(out[4 + 4 + 16384 - 1], 5);
    assert_eq!(out[4 + 4 + 16384], 0);
}

#[test]
fn return_codes_convert_into_results() {
    assert_eq!(Result::<(), Error>::from(ReturnCode(0)), Ok(()));
    assert_eq!(
        Result::<(), Error>::from(ReturnCode(5)),
        Err(Error::TransferFailed)
    );
    assert_eq!(Result::<(), Error>::from(ReturnCode(4)), Err(Error::Unknown));
    let outcome: Result<(), Error> = ReturnCode(11).into();
    assert_eq!(outcome, Err(Error::EcdsaRecoveryFailed));
}

#[test]
fn call_fits_unless_the_count_is_full() {
    let mut engine = Engine::new();
    assert!(engine.call_fits(&None, &bytes(1), 0));
    engine.contracts.entrance_count.insert(bytes(1), u32::MAX);
    // Turned away: nothing is counted.
    assert!(engine.call_fits(&None, &bytes(1), 0));
    assert!(engine.call_fits(&Some(id(2)), &bytes(1), ALLOW_REENTRY));
    // Let in by its own grant or by a standing permission: no room.
    assert!(!engine.call_fits(&Some(id(1)), &bytes(1), ALLOW_REENTRY));
    engine.contracts.set_allow_reentry(bytes(1), true);
    assert!(!engine.call_fits(&None, &bytes(1), 0));
    assert!(engine.call_fits(&Some(id(1)), &bytes(1), 0));
    assert!(engine.call_fits(&None, &bytes(2), 0));
}

#[test]
fn nested_calls_and_gas_are_unsupported() {
    let mut engine = Engine::new();
    engine.database.set_balance(b"acc", 3);
    let mut out = vec![1u8; 4];
    let mut other = vec![2u8; 4];
    assert_eq!(engine.gas_left(&mut out), Err(Unsupported::GasLeft));
    assert_eq!(
        engine.call(b"callee", 10, &[], &[1], &mut out),
        Err(Unsupported::Call)
    );
    assert_eq!(
        engine.instantiate(b"hash", 10, &[], &[1], &mut out, &mut other, b"salt"),
        Err(Unsupported::Instantiate)
    );
    assert_eq!(out, vec![1u8; 4]);
    assert_eq!(other, vec![2u8; 4]);
    assert_eq!(engine.database.get_balance(b"acc"), 3);
    assert_eq!(engine.contracts.get_entrance_count(b"callee".to_vec()), 0);
}

#[test]
fn registrations_by_value() {
    let mut handler = ChainExtensionHandler::new();
    let first = Registration {
        extension: Box::new(Echo { id: 3, status: 30 }),
    };
    handler.register_named(first);
    assert!(handler.is_registered(3));
    assert_eq!(handler.eval(3, &[1]), Ok((30, vec![1])));

    let second = Registration {
        extension: Box::new(Echo { id: 3, status: 31 }),
    };
    assert!(handler.register_entry(9, second).is_none());
    assert!(handler.is_registered(9));
    assert_eq!(handler.eval(9, &[2]), Ok((31, vec![2])));
    assert_eq!(handler.eval(3, &[]), Ok((30, vec![])));

    let third = Registration {
        extension: Box::new(Echo { id: 0, status: 32 }),
    };
    assert!(handler.register_entry(9, third).is_some());
    assert_eq!(handler.eval(9, &[]), Ok((32, vec![])));
    assert!(!handler.is_registered(0));
}

struct Marked(u8);

impl EntryPoint for Marked {
    fn invoke(&self) {
        assert!(self.0 > 0);
    }
}

#[test]
fn register_entry_points_keeps_other_hashes() {
    let mut engine = Engine::new();
    let one = ink_engine::contracts::Contract {
        deploy: Box::new(Marked(1)),
        call: Box::new(Marked(1)),
    };
    let two = ink_engine::contracts::Contract {
        deploy: Box::new(Marked(2)),
        call: Box::new(Marked(2)),
    };
    assert!(engine.register_entry_points(b"one", one).is_none());
    assert!(engine.register_entry_points(b"two", two).is_none());
    assert!(engine
        .register_contract(b"one", Box::new(Nothing), Box::new(Nothing))
        .is_some());
    assert!(engine.contracts.deployed.contains_key(b"one"));
    assert!(engine.contracts.deployed.contains_key(b"two"));
    engine.contracts.deployed.get(b"two").unwrap().call.invoke();
}
