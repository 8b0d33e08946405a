use lc1c_core::assembler::{Assembly, AssemblyCommand, AssemblyEvent};
use lc1c_core::chain::{
    AccountAddress, AccountBalances, BlockHandle, BlockHash, BlockSnapshot, ContractAddress,
    ContractInstances,
};
use lc1c_core::error::ChainError;

fn head() -> BlockHandle {
    BlockHandle { hash: BlockHash { bytes: [3; 32] }, height: 42 }
}

fn balances() -> AccountBalances {
    AccountBalances::from_entries(vec![(AccountAddress { bytes: [1; 32] }, 10)])
}

fn contracts() -> ContractInstances<u8> {
    ContractInstances::from_entries(vec![(ContractAddress { index: 0, subindex: 0 }, 5u8)])
}

#[test]
fn three_successes_give_the_whole_snapshot() {
    let state: Assembly<u8> = Assembly::begin();
    assert_eq!(state.pending(), AssemblyCommand::ResolveHead);
    let state = state.step(AssemblyEvent::Head(Ok(head())));
    assert_eq!(state.pending(), AssemblyCommand::FetchBalances { block: head().hash });
    let state = state.step(AssemblyEvent::Balances(Ok(balances())));
    assert_eq!(state.pending(), AssemblyCommand::FetchContracts { block: head().hash });
    let state = state.step(AssemblyEvent::Contracts(Ok(contracts())));
    assert_eq!(state.pending(), AssemblyCommand::Finish);
    assert_eq!(
        state.finish(),
        Some(BlockSnapshot {
            hash: head().hash,
            height: 42,
            balances: balances(),
            contracts: contracts(),
        })
    );
}

#[test]
fn failed_head_gives_nothing() {
    let state: Assembly<u8> = Assembly::begin();
    let state = state.step(AssemblyEvent::Head(Err(ChainError::RpcUnavailable)));
    assert_eq!(state, Assembly::Incomplete { cause: ChainError::RpcUnavailable });
    assert_eq!(state.pending(), AssemblyCommand::Finish);
    assert_eq!(state.finish(), None);
}

#[test]
fn failed_balances_give_nothing() {
    let state: Assembly<u8> = Assembly::begin();
    let state = state.step(AssemblyEvent::Head(Ok(head())));
    let state = state.step(AssemblyEvent::Balances(Err(ChainError::RpcFailed("x".to_string()))));
    assert_eq!(state.pending(), AssemblyCommand::Finish);
    // What is reported afterwards does not bring the snapshot back.
    let state = state.step(AssemblyEvent::Balances(Ok(balances())));
    let state = state.step(AssemblyEvent::Contracts(Ok(contracts())));
    assert_eq!(state.finish(), None);
}

#[test]
fn failed_contracts_give_nothing() {
    let state: Assembly<u8> = Assembly::begin();
    let state = state.step(AssemblyEvent::Head(Ok(head())));
    let state = state.step(AssemblyEvent::Balances(Ok(balances())));
    let state = state.step(AssemblyEvent::Contracts(Err(ChainError::RpcUnavailable)));
    assert_eq!(state, Assembly::Incomplete { cause: ChainError::RpcUnavailable });
    assert_eq!(state.finish(), None);
}

#[test]
fn unfinished_attempt_gives_nothing() {
    let state: Assembly<u8> = Assembly::begin();
    assert_eq!(state.finish(), None);
    let state: Assembly<u8> = Assembly::begin().step(AssemblyEvent::Head(Ok(head())));
    assert_eq!(state.finish(), None);
    let state: Assembly<u8> = Assembly::begin()
        .step(AssemblyEvent::Head(Ok(head())))
        .step(AssemblyEvent::Balances(Ok(balances())));
    assert_eq!(state.finish(), None);
}

#[test]
fn results_out_of_turn_are_ignored() {
    let state: Assembly<u8> = Assembly::begin();
    let state = state.step(AssemblyEvent::Contracts(Ok(contracts())));
    assert_eq!(state, Assembly::AwaitingHead);
    let state = state.step(AssemblyEvent::Balances(Err(ChainError::RpcUnavailable)));
    assert_eq!(state, Assembly::AwaitingHead);
    let state = state.step(AssemblyEvent::Head(Ok(head())));
    let state = state.step(AssemblyEvent::Head(Err(ChainError::RpcUnavailable)));
    assert_eq!(state, Assembly::AwaitingBalances { block: head() });
}

#[test]
fn complete_attempt_stays_complete() {
    let state: Assembly<u8> = Assembly::begin()
        .step(AssemblyEvent::Head(Ok(head())))
        .step(AssemblyEvent::Balances(Ok(balances())))
        .step(AssemblyEvent::Contracts(Ok(contracts())));
    let state = state.step(AssemblyEvent::Contracts(Err(ChainError::RpcUnavailable)));
    assert!(state.finish().is_some());
}
