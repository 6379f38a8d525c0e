use ink_engine::bytes::{bytes_eq, set_output};
use ink_engine::database::Database;
use ink_engine::error::Error;
use ink_engine::ext::Engine;
use ink_engine::types::AccountId;

fn engine_with_callee(callee: &[u8]) -> Engine {
    let mut engine = Engine::new();
    engine.exec_context.callee = Some(AccountId::from_bytes(callee));
    engine
}

#[test]
fn storage_is_found_after_it_was_set_and_not_after_it_was_cleared() {
    let callee = [1u8; 32];
    let mut engine = engine_with_callee(&callee);
    let mut out = vec![0u8; 8];

    assert_eq!(engine.get_storage(b"key", &mut out), Err(Error::KeyNotFound));
    assert_eq!(out, vec![0u8; 8]);

    assert_eq!(engine.set_storage(b"key", &[1, 2, 3]), None);
    assert_eq!(engine.get_storage(b"key", &mut out), Ok(()));
    assert_eq!(out, vec![1, 2, 3, 0, 0, 0, 0, 0]);

    assert_eq!(engine.clear_storage(b"key"), Some(3));
    let mut out = vec![7u8; 8];
    assert_eq!(engine.get_storage(b"key", &mut out), Err(Error::KeyNotFound));
    assert_eq!(out, vec![7u8; 8]);
    assert_eq!(engine.clear_storage(b"key"), None);
}

#[test]
fn set_storage_returns_the_length_of_the_previous_value() {
    let callee = [1u8; 32];
    let mut engine = engine_with_callee(&callee);
    assert_eq!(engine.set_storage(b"k", &[1, 2, 3, 4, 5]), None);
    assert_eq!(engine.set_storage(b"k", &[9]), Some(5));
    assert_eq!(engine.set_storage(b"k", &[]), Some(1));
    assert_eq!(engine.set_storage(b"k", &[1, 1]), Some(0));
    assert_eq!(engine.contains_storage(b"k"), Some(2));
    assert_eq!(engine.contains_storage(b"other"), None);
}

#[test]
fn take_storage_removes_the_value() {
    let callee = [1u8; 32];
    let mut engine = engine_with_callee(&callee);
    engine.set_storage(b"k", &[4, 5]);
    let mut out = vec![0u8; 3];
    assert_eq!(engine.take_storage(b"k", &mut out), Ok(()));
    assert_eq!(out, vec![4, 5, 0]);
    assert_eq!(engine.take_storage(b"k", &mut out), Err(Error::KeyNotFound));
    assert_eq!(engine.contains_storage(b"k"), None);
}

#[test]
fn storage_is_kept_apart_by_account() {
    let first = [1u8; 32];
    let second = [2u8; 32];
    let mut engine = engine_with_callee(&first);
    engine.set_storage(b"k", &[1]);
    engine.exec_context.callee = Some(AccountId::from_bytes(&second));
    assert_eq!(engine.contains_storage(b"k"), None);
    assert_eq!(engine.set_storage(b"k", &[2, 2]), None);
    engine.exec_context.callee = Some(AccountId::from_bytes(&first));
    assert_eq!(engine.contains_storage(b"k"), Some(1));
    assert_eq!(engine.clear_storage(b"k"), Some(1));
    engine.exec_context.callee = Some(AccountId::from_bytes(&second));
    assert_eq!(engine.contains_storage(b"k"), Some(2));
}

#[test]
fn reads_writes_and_cells_are_recorded() {
    let callee = [1u8; 32];
    let mut engine = engine_with_callee(&callee);
    let mut out = vec![0u8; 4];
    engine.set_storage(b"a", &[1]);
    engine.set_storage(b"b", &[2]);
    let _ = engine.get_storage(b"a", &mut out);
    engine.contains_storage(b"zz");
    let _ = engine.take_storage(b"zz", &mut out);
    engine.clear_storage(b"b");
    assert_eq!(engine.debug_info.count_writes(&callee), 4);
    assert_eq!(engine.debug_info.count_reads(&callee), 2);
    assert_eq!(engine.debug_info.count_reads(&[2u8; 32]), 0);
    assert!(engine.debug_info.is_cell_touched(&callee, b"a"));
    assert!(!engine.debug_info.is_cell_touched(&callee, b"b"));
    assert!(!engine.debug_info.is_cell_touched(&[2u8; 32], b"a"));
}

#[test]
fn database_storage_operations() {
    let mut db = Database::new();
    assert_eq!(db.get_balance(b"nobody"), 0);
    assert_eq!(db.find_balance(b"nobody"), None);
    db.set_balance(b"acc", 5);
    db.set_balance(b"acc", 9);
    assert_eq!(db.get_balance(b"acc"), 9);

    assert_eq!(db.insert_into_contract_storage(b"acc", b"k", vec![1]), None);
    assert_eq!(
        db.insert_into_contract_storage(b"acc", b"k", vec![2, 3]),
        Some(vec![1])
    );
    assert_eq!(db.get_from_contract_storage(b"acc", b"k"), Some(&vec![2, 3]));
    assert_eq!(db.get_from_contract_storage(b"other", b"k"), None);
    assert_eq!(db.get_from_contract_storage(b"acc", b"j"), None);
    assert_eq!(db.remove_contract_storage(b"other", b"k"), None);
    assert_eq!(db.remove_contract_storage(b"acc", b"k"), Some(vec![2, 3]));
    assert_eq!(db.remove_contract_storage(b"acc", b"k"), None);
}

#[test]
fn set_output_overwrites_the_front_only() {
    let mut out = vec![9u8; 5];
    set_output(&mut out, &[1, 2]);
    assert_eq!(out, vec![1, 2, 9, 9, 9]);
    set_output(&mut out, &[]);
    assert_eq!(out, vec![1, 2, 9, 9, 9]);
    set_output(&mut out, &[5, 4, 3, 2, 1]);
    assert_eq!(out, vec![5, 4, 3, 2, 1]);
}

#[test]
fn bytes_eq_compares_byte_by_byte() {
    assert!(bytes_eq(&[], &[]));
    assert!(bytes_eq(&[1, 2], &[1, 2]));
    assert!(!bytes_eq(&[1, 2], &[1, 3]));
    assert!(!bytes_eq(&[1, 2], &[1, 2, 3]));
    assert!(!bytes_eq(&[1], &[]));
}
