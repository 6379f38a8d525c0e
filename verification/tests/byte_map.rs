use ink_engine::byte_map::ByteMap;

#[test]
fn byte_map_insert_get_remove() {
    let mut map: ByteMap<u32> = ByteMap::new();
    assert_eq!(map.get(b"a"), None);
    assert_eq!(map.insert(b"a".to_vec(), 1), None);
    assert_eq!(map.insert(b"b".to_vec(), 2), None);
    assert_eq!(map.insert(b"c".to_vec(), 3), None);
    assert_eq!(map.insert(b"a".to_vec(), 4), Some(1));
    assert_eq!(map.get(b"a"), Some(&4));
    assert_eq!(map.get(b"b"), Some(&2));
    assert_eq!(map.get(b"c"), Some(&3));
    assert_eq!(map.remove(b"b"), Some(2));
    assert_eq!(map.remove(b"b"), None);
    assert!(!map.contains_key(b"b"));
    assert!(map.contains_key(b"a"));
    assert_eq!(map.get(b"c"), Some(&3));
    assert_eq!(map.get(b""), None);
    assert_eq!(map.insert(Vec::new(), 9), None);
    assert_eq!(map.get(b""), Some(&9));
}
