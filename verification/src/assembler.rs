//! Assembly of one block snapshot from three calls made in turn: the head,
//! the balances at that head, the contract instances at that head.
//!
//! The caller makes the calls and reports each result; the machine says which
//! call is next. A failed call ends the attempt with nothing assembled.

use crate::chain::{AccountBalances, BlockHandle, BlockHash, BlockSnapshot, ContractInstances};
use crate::error::ChainError;
use vstd::prelude::*;

verus! {

/// How far one attempt has come.
#[derive(Clone, Debug, PartialEq, Eq)]
pub enum Assembly<I> {
    /// The head is being resolved.
    AwaitingHead,
    /// The balances at `block` are being fetched.
    AwaitingBalances { block: BlockHandle },
    /// The contract instances at `block` are being fetched.
    AwaitingContracts { block: BlockHandle, balances: AccountBalances },
    /// All three calls succeeded.
    Complete { snapshot: BlockSnapshot<I> },
    /// A call failed; `cause` is what it reported.
    Incomplete { cause: ChainError },
}

/// The result of one of the three calls.
#[derive(Debug, PartialEq, Eq)]
pub enum AssemblyEvent<I> {
    Head(Result<BlockHandle, ChainError>),
    Balances(Result<AccountBalances, ChainError>),
    Contracts(Result<ContractInstances<I>, ChainError>),
}

/// The call to make next.
#[derive(Clone, Copy, Debug, PartialEq, Eq)]
pub enum AssemblyCommand {
    ResolveHead,
    FetchBalances { block: BlockHash },
    FetchContracts { block: BlockHash },
    /// The attempt is over: no call is left to make.
    Finish,
}

/// The snapshot that three successful calls give.
pub open spec fn snapshot_of<I>(
    block: BlockHandle,
    balances: AccountBalances,
    contracts: ContractInstances<I>,
) -> BlockSnapshot<I> {
    BlockSnapshot { hash: block.hash, height: block.height, balances, contracts }
}

impl<I> Assembly<I> {
    /// The call a state waits for.
    pub open spec fn pending_spec(&self) -> AssemblyCommand {
        match *self {
            Assembly::AwaitingHead => AssemblyCommand::ResolveHead,
            Assembly::AwaitingBalances { block } => AssemblyCommand::FetchBalances {
                block: block.hash,
            },
            Assembly::AwaitingContracts { block, .. } => AssemblyCommand::FetchContracts {
                block: block.hash,
            },
            Assembly::Complete { .. } => AssemblyCommand::Finish,
            Assembly::Incomplete { .. } => AssemblyCommand::Finish,
        }
    }

    /// The state after `event`. A result that the state does not wait for
    /// changes nothing.
    pub open spec fn step_spec(self, event: AssemblyEvent<I>) -> Assembly<I> {
        match (self, event) {
            (Assembly::AwaitingHead, AssemblyEvent::Head(Ok(block))) => Assembly::AwaitingBalances {
                block,
            },
            (Assembly::AwaitingHead, AssemblyEvent::Head(Err(cause))) => Assembly::Incomplete {
                cause,
            },
            (
                Assembly::AwaitingBalances { block },
                AssemblyEvent::Balances(Ok(balances)),
            ) => Assembly::AwaitingContracts { block, balances },
            (Assembly::AwaitingBalances { .. }, AssemblyEvent::Balances(Err(cause))) => {
                Assembly::Incomplete { cause }
            },
            (
                Assembly::AwaitingContracts { block, balances },
                AssemblyEvent::Contracts(Ok(contracts)),
            ) => Assembly::Complete { snapshot: snapshot_of(block, balances, contracts) },
            (Assembly::AwaitingContracts { .. }, AssemblyEvent::Contracts(Err(cause))) => {
                Assembly::Incomplete { cause }
            },
            (state, _) => state,
        }
    }

    /// What the attempt has assembled: the snapshot once all three calls have
    /// succeeded, nothing before that and nothing after a failure.
    pub open spec fn outcome(self) -> Option<BlockSnapshot<I>> {
        match self {
            Assembly::Complete { snapshot } => Some(snapshot),
            _ => None,
        }
    }

    /// A new attempt.
    pub fn begin() -> (state: Assembly<I>)
        ensures
            state == Assembly::<I>::AwaitingHead,
    {
        Assembly::AwaitingHead
    }

    /// The call the state waits for.
    pub fn pending(&self) -> (cmd: AssemblyCommand)
        ensures
            cmd == self.pending_spec(),
    {
        match self {
            Assembly::AwaitingHead => AssemblyCommand::ResolveHead,
            Assembly::AwaitingBalances { block } => AssemblyCommand::FetchBalances {
                block: block.hash,
            },
            Assembly::AwaitingContracts { block, .. } => AssemblyCommand::FetchContracts {
                block: block.hash,
            },
            Assembly::Complete { .. } => AssemblyCommand::Finish,
            Assembly::Incomplete { .. } => AssemblyCommand::Finish,
        }
    }

    /// Takes the result of a call and moves on.
    pub fn step(self, event: AssemblyEvent<I>) -> (next: Assembly<I>)
        ensures
            next == self.step_spec(event),
    {
        match (self, event) {
            (Assembly::AwaitingHead, AssemblyEvent::Head(Ok(block))) => Assembly::AwaitingBalances {
                block,
            },
            (Assembly::AwaitingHead, AssemblyEvent::Head(Err(cause))) => Assembly::Incomplete {
                cause,
            },
            (
                Assembly::AwaitingBalances { block },
                AssemblyEvent::Balances(Ok(balances)),
            ) => Assembly::AwaitingContracts { block, balances },
            (Assembly::AwaitingBalances { .. }, AssemblyEvent::Balances(Err(cause))) => {
                Assembly::Incomplete { cause }
            },
            (
                Assembly::AwaitingContracts { block, balances },
                AssemblyEvent::Contracts(Ok(contracts)),
            ) => Assembly::Complete {
                snapshot: BlockSnapshot { hash: block.hash, height: block.height, balances, contracts },
            },
            (Assembly::AwaitingContracts { .. }, AssemblyEvent::Contracts(Err(cause))) => {
                Assembly::Incomplete { cause }
            },
            (state, _) => state,
        }
    }

    /// Ends the attempt: the snapshot if it is complete, else nothing.
    pub fn finish(self) -> (snapshot: Option<BlockSnapshot<I>>)
        ensures
            snapshot == self.outcome(),
    {
        match self {
            Assembly::Complete { snapshot } => Some(snapshot),
            _ => None,
        }
    }
}

/// The state after all of `events`, taken in order.
pub open spec fn assembly_after<I>(state: Assembly<I>, events: Seq<AssemblyEvent<I>>) -> Assembly<I>
    decreases events.len(),
{
    if events.len() == 0 {
        state
    } else {
        assembly_after(state.step_spec(events[0]), events.drop_first())
    }
}

/// Whether `event` reports the failure of the call that `state` waits for.
pub open spec fn fails<I>(state: Assembly<I>, event: AssemblyEvent<I>) -> bool {
    match (state, event) {
        (Assembly::AwaitingHead, AssemblyEvent::Head(Err(_))) => true,
        (Assembly::AwaitingBalances { .. }, AssemblyEvent::Balances(Err(_))) => true,
        (Assembly::AwaitingContracts { .. }, AssemblyEvent::Contracts(Err(_))) => true,
        _ => false,
    }
}

/// The results that an attempt sees when its three calls answer `head`,
/// `balances` and `contracts`: each call is made only if the one before it
/// succeeded.
pub open spec fn attempt_events<I>(
    head: Result<BlockHandle, ChainError>,
    balances: Result<AccountBalances, ChainError>,
    contracts: Result<ContractInstances<I>, ChainError>,
) -> Seq<AssemblyEvent<I>> {
    if head is Err {
        seq![AssemblyEvent::Head(head)]
    } else if balances is Err {
        seq![AssemblyEvent::Head(head), AssemblyEvent::Balances(balances)]
    } else {
        seq![
            AssemblyEvent::Head(head),
            AssemblyEvent::Balances(balances),
            AssemblyEvent::Contracts(contracts),
        ]
    }
}

proof fn lemma_incomplete_stays<I>(cause: ChainError, events: Seq<AssemblyEvent<I>>)
    ensures
        assembly_after(Assembly::<I>::Incomplete { cause }, events) == (Assembly::<I>::Incomplete {
            cause,
        }),
    decreases events.len(),
{
    if events.len() > 0 {
        lemma_incomplete_stays(cause, events.drop_first());
    }
}

/// Once a call that the attempt waited for has failed, the attempt yields no
/// snapshot, whatever is reported afterwards.
pub proof fn theorem_failure_yields_nothing<I>(
    state: Assembly<I>,
    failure: AssemblyEvent<I>,
    later: Seq<AssemblyEvent<I>>,
)
    requires
        fails(state, failure),
    ensures
        assembly_after(state.step_spec(failure), later).outcome() == None::<BlockSnapshot<I>>,
        assembly_after(state, seq![failure] + later).outcome() == None::<BlockSnapshot<I>>,
{
    let failed = state.step_spec(failure);
    let cause = failed->cause;
    assert(failed == Assembly::<I>::Incomplete { cause });
    lemma_incomplete_stays(cause, later);
    assert((seq![failure] + later).drop_first() =~= later);
}

/// An attempt yields a snapshot exactly when all three of its calls succeed,
/// and the snapshot then holds the head's hash and height, the balances and
/// the contract instances as they were reported.
pub proof fn theorem_whole_or_nothing<I>(
    head: Result<BlockHandle, ChainError>,
    balances: Result<AccountBalances, ChainError>,
    contracts: Result<ContractInstances<I>, ChainError>,
)
    ensures
        assembly_after(
            Assembly::<I>::AwaitingHead,
            attempt_events(head, balances, contracts),
        ).outcome() == (if head is Ok && balances is Ok && contracts is Ok {
            Some(snapshot_of(head->Ok_0, balances->Ok_0, contracts->Ok_0))
        } else {
            None
        }),
        assembly_after(
            Assembly::<I>::AwaitingHead,
            attempt_events(head, balances, contracts),
        ).pending_spec() == AssemblyCommand::Finish,
{
    let events = attempt_events(head, balances, contracts);
    let s0 = Assembly::<I>::AwaitingHead;
    let s1 = s0.step_spec(events[0]);
    assert(assembly_after(s0, events) == assembly_after(s1, events.drop_first()));
    if head is Err {
        assert(events.drop_first().len() == 0);
    } else {
        let e1 = events.drop_first();
        let s2 = s1.step_spec(e1[0]);
        assert(assembly_after(s1, e1) == assembly_after(s2, e1.drop_first()));
        if balances is Err {
            assert(e1.drop_first().len() == 0);
        } else {
            let e2 = e1.drop_first();
            let s3 = s2.step_spec(e2[0]);
            assert(assembly_after(s2, e2) == assembly_after(s3, e2.drop_first()));
            assert(e2.drop_first().len() == 0);
        }
    }
}

} // verus!
