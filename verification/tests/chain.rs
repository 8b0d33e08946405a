use lc1c_core::chain::{
    id_bytes_equal, AccountAddress, AccountBalances, BlockHandle, BlockHash, ContractAddress,
    ContractInstances,
};

fn address(tag: u8) -> AccountAddress {
    AccountAddress { bytes: [tag; 32] }
}

#[test]
fn handles_are_the_same_block_iff_hashes_agree() {
    let a = BlockHandle { hash: BlockHash { bytes: [1; 32] }, height: 5 };
    let b = BlockHandle { hash: BlockHash { bytes: [1; 32] }, height: 9 };
    let mut other = [1u8; 32];
    other[31] = 2;
    let c = BlockHandle { hash: BlockHash { bytes: other }, height: 5 };
    assert!(a.same_block(&b));
    assert!(!a.same_block(&c));
    assert!(a.same_block(&a));
}

#[test]
fn identifier_comparison_sees_every_byte() {
    let base = [7u8; 32];
    assert!(id_bytes_equal(&base, &base));
    for i in 0..32usize {
        let mut changed = base;
        changed[i] = 8;
        assert!(!id_bytes_equal(&base, &changed));
        assert!(!id_bytes_equal(&changed, &base));
    }
}

#[test]
fn balances_start_empty() {
    let balances = AccountBalances::new();
    assert_eq!(balances.len(), 0);
    assert_eq!(balances.get(&address(1)), None);
    assert!(balances.entries().is_empty());
}

#[test]
fn balances_insert_and_get() {
    let mut balances = AccountBalances::new();
    assert_eq!(balances.insert(address(1), 100), None);
    assert_eq!(balances.insert(address(2), 200), None);
    assert_eq!(balances.len(), 2);
    assert_eq!(balances.get(&address(1)), Some(100));
    assert_eq!(balances.get(&address(2)), Some(200));
    assert_eq!(balances.get(&address(3)), None);
}

#[test]
fn balances_insert_replaces_and_keeps_keys_unique() {
    let mut balances = AccountBalances::new();
    balances.insert(address(1), 100);
    balances.insert(address(2), 200);
    assert_eq!(balances.insert(address(1), 150), Some(100));
    assert_eq!(balances.len(), 2);
    assert_eq!(balances.get(&address(1)), Some(150));
    assert_eq!(balances.get(&address(2)), Some(200));
    assert_eq!(balances.entries(), &vec![(address(1), 150), (address(2), 200)]);
}

#[test]
fn balances_from_entries_later_entry_wins() {
    let balances = AccountBalances::from_entries(vec![
        (address(1), 1),
        (address(2), 2),
        (address(1), 3),
        (address(3), 4),
    ]);
    assert_eq!(balances.len(), 3);
    assert_eq!(balances.get(&address(1)), Some(3));
    assert_eq!(balances.get(&address(2)), Some(2));
    assert_eq!(balances.get(&address(3)), Some(4));
    let copy = balances.clone();
    assert_eq!(copy, balances);
}

#[test]
fn instances_insert_get_and_replace() {
    let mut instances: ContractInstances<String> = ContractInstances::new();
    assert_eq!(instances.len(), 0);
    assert_eq!(instances.insert(4, "a".to_string()), None);
    assert_eq!(instances.insert(9, "b".to_string()), None);
    assert_eq!(instances.insert(4, "c".to_string()), Some("a".to_string()));
    assert_eq!(instances.len(), 2);
    assert_eq!(instances.get(4), Some(&"c".to_string()));
    assert_eq!(instances.get(9), Some(&"b".to_string()));
    assert_eq!(instances.get(5), None);
}

#[test]
fn instances_from_entries_are_keyed_by_index() {
    let instances = ContractInstances::from_entries(vec![
        (ContractAddress { index: 1, subindex: 0 }, "first"),
        (ContractAddress { index: 2, subindex: 0 }, "second"),
        (ContractAddress { index: 1, subindex: 7 }, "third"),
    ]);
    assert_eq!(instances.len(), 2);
    assert_eq!(instances.get(1), Some(&"third"));
    assert_eq!(instances.get(2), Some(&"second"));
}
