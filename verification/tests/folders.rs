use lc1c_core::folders::{
    base_folder_name, chain_folder_name, chain_number, is_chain_folder, list_chain_folders,
    FolderCommand, FolderSearch,
};

fn names(list: &[&str]) -> Vec<String> {
    list.iter().map(|s| s.to_string()).collect()
}

#[test]
fn folder_names_carry_their_number() {
    assert_eq!(base_folder_name(), ".concordium-lc1c");
    assert_eq!(chain_folder_name(1), "chain-1");
    assert_eq!(chain_folder_name(0), "chain-0");
    assert_eq!(chain_folder_name(10), "chain-10");
    assert_eq!(chain_folder_name(907), "chain-907");
    assert_eq!(chain_folder_name(u64::MAX), "chain-18446744073709551615");
    for n in [1u64, 9, 10, 99, 100, 12345, 2147483647] {
        let name = chain_folder_name(n);
        assert_eq!(name, format!("chain-{}", n));
        assert!(is_chain_folder(&name));
        assert_eq!(chain_number(&name) as u64, n);
    }
}

#[test]
fn chain_folders_begin_with_the_prefix() {
    assert!(is_chain_folder("chain-1"));
    assert!(is_chain_folder("chain-"));
    assert!(is_chain_folder("chain-abc"));
    assert!(!is_chain_folder("chain"));
    assert!(!is_chain_folder("Chain-1"));
    assert!(!is_chain_folder("my-chain-1"));
    assert!(!is_chain_folder(""));
}

#[test]
fn chain_numbers_read_as_signed_32_bit_or_zero() {
    assert_eq!(chain_number("chain-12"), 12);
    assert_eq!(chain_number("chain-007"), 7);
    assert_eq!(chain_number("chain-+7"), 7);
    assert_eq!(chain_number("chain--3"), -3);
    assert_eq!(chain_number("chain-"), 0);
    assert_eq!(chain_number("chain-x"), 0);
    assert_eq!(chain_number("chain-1x"), 0);
    assert_eq!(chain_number("chain- 1"), 0);
    assert_eq!(chain_number("chain-2147483647"), 2147483647);
    assert_eq!(chain_number("chain-2147483648"), 0);
    assert_eq!(chain_number("chain--2147483648"), -2147483648);
    assert_eq!(chain_number("chain--2147483649"), 0);
    assert_eq!(chain_number("chain-99999999999999999999999"), 0);
}

#[test]
fn listing_keeps_chain_folders_in_numeric_order() {
    let listed = list_chain_folders(names(&[
        "chain-10", "notes", "chain-2", "chain-1", "chains", "chain-33", "chain-3",
    ]));
    assert_eq!(listed, names(&["chain-1", "chain-2", "chain-3", "chain-10", "chain-33"]));
}

#[test]
fn listing_keeps_the_order_of_folders_with_one_number() {
    let listed = list_chain_folders(names(&[
        "chain-b", "chain-2", "chain-a", "chain-02", "chain-0", "chain-1", "chain-+2",
    ]));
    assert_eq!(
        listed,
        names(&["chain-b", "chain-a", "chain-0", "chain-1", "chain-2", "chain-02", "chain-+2"])
    );
}

#[test]
fn listing_agrees_with_a_stable_sort_by_number() {
    let input = names(&[
        "chain-5", "chain-x", "x", "chain--1", "chain-5", "chain-40", "chain-4", "chain-", "c",
        "chain-2147483648", "chain-3",
    ]);
    let mut expected: Vec<String> =
        input.iter().filter(|n| n.starts_with("chain-")).cloned().collect();
    expected.sort_by_key(|n| n["chain-".len()..].parse::<i32>().unwrap_or(0));
    assert_eq!(list_chain_folders(input), expected);
}

#[test]
fn listing_of_nothing_is_empty() {
    assert_eq!(list_chain_folders(Vec::new()), Vec::<String>::new());
    assert_eq!(list_chain_folders(names(&["a", "b"])), Vec::<String>::new());
}

#[test]
fn search_creates_the_first_free_folder() {
    let (mut search, first) = FolderSearch::begin();
    assert_eq!(first, FolderCommand::Probe { name: "chain-1".to_string() });
    assert_eq!(search.step(true), FolderCommand::Probe { name: "chain-2".to_string() });
    assert_eq!(search.step(true), FolderCommand::Probe { name: "chain-3".to_string() });
    assert_eq!(search.step(false), FolderCommand::Create { name: "chain-3".to_string() });
    assert_eq!(search.number, 3);
}

#[test]
fn search_in_an_empty_base_creates_the_first_folder() {
    let (mut search, _) = FolderSearch::begin();
    assert_eq!(search.step(false), FolderCommand::Create { name: "chain-1".to_string() });
}

#[test]
fn search_ends_when_the_numbers_run_out() {
    let mut search = FolderSearch { number: u64::MAX };
    assert_eq!(search.step(true), FolderCommand::Exhausted);
    assert_eq!(search.number, u64::MAX);
}
