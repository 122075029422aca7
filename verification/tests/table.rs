use container_registry::digest::Digest;
use container_registry::storage::UploadId;
use container_registry::table::{Key, Table};

#[test]
fn empty_table_holds_nothing() {
    let table: Table<UploadId, Vec<u8>> = Table::new();
    assert!(!table.contains_key(&UploadId::from_u128(0)));
    assert_eq!(table.get(&UploadId::from_u128(0)), None);
}

#[test]
fn inserted_value_is_found_under_its_key() {
    let mut table: Table<UploadId, Vec<u8>> = Table::new();
    table.insert(UploadId::from_u128(1), vec![1]);
    table.insert(UploadId::from_u128(2), vec![2, 2]);
    assert_eq!(table.get(&UploadId::from_u128(1)), Some(&vec![1]));
    assert_eq!(table.get(&UploadId::from_u128(2)), Some(&vec![2, 2]));
    assert_eq!(table.get(&UploadId::from_u128(3)), None);
    assert!(table.contains_key(&UploadId::from_u128(2)));
}

#[test]
fn insert_replaces_the_value_under_a_key() {
    let mut table: Table<UploadId, Vec<u8>> = Table::new();
    table.insert(UploadId::from_u128(1), vec![1]);
    table.insert(UploadId::from_u128(2), vec![2]);
    table.insert(UploadId::from_u128(1), vec![9, 9]);
    assert_eq!(table.get(&UploadId::from_u128(1)), Some(&vec![9, 9]));
    assert_eq!(table.get(&UploadId::from_u128(2)), Some(&vec![2]));
    assert_eq!(table.remove(&UploadId::from_u128(1)), Some(vec![9, 9]));
    // The replaced value did not stay behind.
    assert_eq!(table.get(&UploadId::from_u128(1)), None);
    assert_eq!(table.remove(&UploadId::from_u128(1)), None);
}

#[test]
fn remove_takes_out_one_key_only() {
    let mut table: Table<Digest, Vec<u8>> = Table::new();
    let a = Digest::from_contents(b"a");
    let b = Digest::from_contents(b"b");
    let c = Digest::from_contents(b"c");
    table.insert(a, b"a".to_vec());
    table.insert(b, b"b".to_vec());
    table.insert(c, b"c".to_vec());
    assert_eq!(table.remove(&b), Some(b"b".to_vec()));
    assert_eq!(table.get(&a), Some(&b"a".to_vec()));
    assert_eq!(table.get(&b), None);
    assert_eq!(table.get(&c), Some(&b"c".to_vec()));
    assert_eq!(table.remove(&Digest::from_contents(b"d")), None);
}

#[test]
fn keys_are_the_same_when_their_values_are() {
    assert!(UploadId::from_u128(7).same_key(&UploadId::from_u128(7)));
    assert!(!UploadId::from_u128(7).same_key(&UploadId::from_u128(8)));
    let digest = Digest::from_contents(b"x");
    assert!(digest.same_key(&Digest::new(*digest.as_bytes())));
    assert!(!digest.same_key(&Digest::from_contents(b"y")));
}
