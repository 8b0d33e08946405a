//! The indexer: a two-phase walk over the chain, as a state machine.
//!
//! The machine never performs outside work. It is handed what happened (an
//! [`IndexerEvent`]) and answers with what to deliver and what to do next (an
//! [`IndexerOutput`]). The caller runs the loop: it starts with
//! [`Indexer::pending`], performs each command and reports the outcome to
//! [`Indexer::step`].

use crate::chain::{BlockHandle, TransactionBatch};
use crate::error::ChainError;
use vstd::prelude::*;

verus! {

/// Time units to wait before the head is asked for again while no baseline
/// has been established.
pub const BASELINE_RETRY_DELAY: u64 = 5;

/// The indexer's position on the chain.
///
/// `current.height` is the height visited next. `current.hash` stays that of
/// the head the present descent started from.
#[derive(Clone, Copy, Debug, PartialEq, Eq)]
pub struct IndexerCursor {
    pub current: BlockHandle,
    pub baseline_height: u64,
    /// `None` until the first descent has reached height 0.
    pub backfill_floor: Option<u64>,
}

impl IndexerCursor {
    /// The floor as a signed number: -1 while it is not established.
    pub open spec fn floor(&self) -> int {
        match self.backfill_floor {
            Some(f) => f as int,
            None => -1,
        }
    }

    /// The cursor a freshly resolved baseline gives.
    pub open spec fn at_baseline(head: BlockHandle) -> IndexerCursor {
        IndexerCursor { current: head, baseline_height: head.height, backfill_floor: None }
    }

    /// The cursor after `head` was adopted for a polling round.
    pub open spec fn adopt(&self, head: BlockHandle) -> IndexerCursor {
        IndexerCursor {
            current: head,
            baseline_height: self.baseline_height,
            backfill_floor: Some(self.baseline_height),
        }
    }

    /// The cursor moved to the parent of the current block.
    pub open spec fn parent(&self) -> IndexerCursor
        recommends
            self.current.height > 0,
    {
        IndexerCursor {
            current: BlockHandle {
                hash: self.current.hash,
                height: (self.current.height - 1) as u64,
            },
            baseline_height: self.baseline_height,
            backfill_floor: self.backfill_floor,
        }
    }
}

/// Where the indexer stands.
#[derive(Clone, Copy, Debug, PartialEq, Eq)]
pub enum Phase {
    /// No baseline yet: the head is being asked for.
    Uninitialized,
    /// Walking from the baseline down to height 0; the batch of the cursor's
    /// height is being fetched.
    Descending(IndexerCursor),
    /// Nothing left below the cursor: the head is being asked for.
    CaughtUp(IndexerCursor),
    /// Draining the blocks above the floor; the batch of the cursor's height
    /// is being fetched.
    Polling(IndexerCursor),
}

/// How often a call that failed in the middle of a phase is made again before
/// the indexer gives up. Baseline establishment is not governed by this: it
/// retries without bound.
#[derive(Clone, Copy, Debug, PartialEq, Eq)]
pub struct RetryPolicy {
    pub mid_phase_retries: u32,
}

/// What the caller reports to the machine.
#[derive(Clone, Debug, PartialEq, Eq)]
pub enum IndexerEvent<T> {
    /// The latest finalized block was resolved.
    HeadResolved(BlockHandle),
    /// Resolving the latest finalized block failed.
    HeadFailed(ChainError),
    /// The transactions of the requested height, in chain order.
    BatchFetched(Vec<T>),
    /// Fetching the transactions of the requested height failed.
    BatchFailed(ChainError),
}

/// The outside work the machine asks for next.
#[derive(Clone, Debug, PartialEq, Eq)]
pub enum IndexerCommand {
    /// Wait `delay` time units, then resolve the latest finalized block.
    ResolveHead { delay: u64 },
    /// Fetch the transactions of the block at `height`.
    FetchBatch { height: u64 },
    /// The head has not advanced past the baseline. Nothing is asked for; the
    /// caller may resolve the head again whenever it sees fit.
    Pause,
    /// A call failed and the policy allows no further attempt.
    Abort { cause: ChainError },
}

/// The machine's answer to one event.
#[derive(Clone, Debug, PartialEq, Eq)]
pub struct IndexerOutput<T> {
    /// The batch to deliver on the transactions channel, if this step visited
    /// a block.
    pub emitted: Option<TransactionBatch<T>>,
    pub next: IndexerCommand,
}

/// The indexer state machine.
#[derive(Clone, Copy, Debug, PartialEq, Eq)]
pub struct Indexer {
    pub phase: Phase,
    pub policy: RetryPolicy,
    /// Consecutive failures of the call now pending.
    pub failures: u32,
}

impl RetryPolicy {
    /// The policy that gives up on the first failure in the middle of a phase.
    pub fn none() -> (p: RetryPolicy)
        ensures
            p.mid_phase_retries == 0,
    {
        RetryPolicy { mid_phase_retries: 0 }
    }
}

impl Indexer {
    /// The machine before any event.
    pub open spec fn initial(policy: RetryPolicy) -> Indexer {
        Indexer { phase: Phase::Uninitialized, policy, failures: 0 }
    }

    /// The call a phase waits for.
    pub open spec fn pending_spec(&self) -> IndexerCommand {
        match self.phase {
            Phase::Uninitialized => IndexerCommand::ResolveHead { delay: 0 },
            Phase::Descending(c) => IndexerCommand::FetchBatch { height: c.current.height },
            Phase::CaughtUp(_) => IndexerCommand::ResolveHead { delay: 0 },
            Phase::Polling(c) => IndexerCommand::FetchBatch { height: c.current.height },
        }
    }

    /// Same machine, another phase, failure count cleared.
    pub open spec fn moved_to(&self, phase: Phase) -> Indexer {
        Indexer { phase, policy: self.policy, failures: 0 }
    }

    /// The answer to a failure in the middle of a phase: the pending call
    /// again while the policy allows, else abort with the cause.
    pub open spec fn after_failure<T>(&self, cause: ChainError) -> (Indexer, IndexerOutput<T>) {
        if self.failures < self.policy.mid_phase_retries {
            (
                Indexer {
                    phase: self.phase,
                    policy: self.policy,
                    failures: (self.failures + 1) as u32,
                },
                IndexerOutput { emitted: None, next: self.pending_spec() },
            )
        } else {
            (*self, IndexerOutput { emitted: None, next: IndexerCommand::Abort { cause } })
        }
    }

    /// The answer to an event the phase does not wait for: nothing changes
    /// and the pending call is asked for again.
    pub open spec fn ignoring<T>(&self) -> (Indexer, IndexerOutput<T>) {
        (*self, IndexerOutput { emitted: None, next: self.pending_spec() })
    }

    /// The answer to a resolved head while no block is left to visit.
    pub open spec fn after_head<T>(&self, cursor: IndexerCursor, head: BlockHandle) -> (
        Indexer,
        IndexerOutput<T>,
    ) {
        if head.height <= cursor.baseline_height {
            (
                self.moved_to(Phase::CaughtUp(cursor)),
                IndexerOutput { emitted: None, next: IndexerCommand::Pause },
            )
        } else {
            (
                self.moved_to(Phase::Polling(cursor.adopt(head))),
                IndexerOutput {
                    emitted: None,
                    next: IndexerCommand::FetchBatch { height: head.height },
                },
            )
        }
    }

    /// The answer to a fetched batch during the first descent.
    pub open spec fn after_descent_batch<T>(&self, cursor: IndexerCursor, items: Vec<T>) -> (
        Indexer,
        IndexerOutput<T>,
    ) {
        let batch = TransactionBatch { height: cursor.current.height, transactions: items };
        if cursor.current.height > 0 {
            (
                self.moved_to(Phase::Descending(cursor.parent())),
                IndexerOutput {
                    emitted: Some(batch),
                    next: IndexerCommand::FetchBatch { height: cursor.parent().current.height },
                },
            )
        } else {
            (
                self.moved_to(Phase::CaughtUp(cursor)),
                IndexerOutput {
                    emitted: Some(batch),
                    next: IndexerCommand::ResolveHead { delay: 0 },
                },
            )
        }
    }

    /// The answer to a fetched batch during a polling round.
    pub open spec fn after_polling_batch<T>(&self, cursor: IndexerCursor, items: Vec<T>) -> (
        Indexer,
        IndexerOutput<T>,
    ) {
        if cursor.backfill_floor is Some && cursor.current.height > cursor.floor() {
            let batch = TransactionBatch { height: cursor.current.height, transactions: items };
            if cursor.parent().current.height > cursor.floor() {
                (
                    self.moved_to(Phase::Polling(cursor.parent())),
                    IndexerOutput {
                        emitted: Some(batch),
                        next: IndexerCommand::FetchBatch {
                            height: cursor.parent().current.height,
                        },
                    },
                )
            } else {
                (
                    self.moved_to(Phase::CaughtUp(cursor.parent())),
                    IndexerOutput {
                        emitted: Some(batch),
                        next: IndexerCommand::ResolveHead { delay: 0 },
                    },
                )
            }
        } else {
            (
                self.moved_to(Phase::CaughtUp(cursor)),
                IndexerOutput { emitted: None, next: IndexerCommand::ResolveHead { delay: 0 } },
            )
        }
    }

    /// The transition function: the machine after `event`, and its answer.
    pub open spec fn step_spec<T>(&self, event: IndexerEvent<T>) -> (Indexer, IndexerOutput<T>) {
        match (self.phase, event) {
            (Phase::Uninitialized, IndexerEvent::HeadResolved(head)) => (
                self.moved_to(Phase::Descending(IndexerCursor::at_baseline(head))),
                IndexerOutput {
                    emitted: None,
                    next: IndexerCommand::FetchBatch { height: head.height },
                },
            ),
            (Phase::Uninitialized, IndexerEvent::HeadFailed(_)) => (
                *self,
                IndexerOutput {
                    emitted: None,
                    next: IndexerCommand::ResolveHead { delay: BASELINE_RETRY_DELAY },
                },
            ),
            (Phase::Descending(c), IndexerEvent::BatchFetched(items)) => self.after_descent_batch(
                c,
                items,
            ),
            (Phase::Polling(c), IndexerEvent::BatchFetched(items)) => self.after_polling_batch(
                c,
                items,
            ),
            (Phase::Descending(_), IndexerEvent::BatchFailed(cause)) => self.after_failure(cause),
            (Phase::Polling(_), IndexerEvent::BatchFailed(cause)) => self.after_failure(cause),
            (Phase::CaughtUp(c), IndexerEvent::HeadResolved(head)) => self.after_head(c, head),
            (Phase::CaughtUp(_), IndexerEvent::HeadFailed(cause)) => self.after_failure(cause),
            _ => self.ignoring(),
        }
    }

    /// A machine with no baseline.
    pub fn new(policy: RetryPolicy) -> (ix: Indexer)
        ensures
            ix == Indexer::initial(policy),
    {
        Indexer { phase: Phase::Uninitialized, policy, failures: 0 }
    }

    /// The call the machine waits for. The caller's loop starts with it.
    pub fn pending(&self) -> (cmd: IndexerCommand)
        ensures
            cmd == self.pending_spec(),
    {
        match self.phase {
            Phase::Uninitialized => IndexerCommand::ResolveHead { delay: 0 },
            Phase::Descending(c) => IndexerCommand::FetchBatch { height: c.current.height },
            Phase::CaughtUp(_) => IndexerCommand::ResolveHead { delay: 0 },
            Phase::Polling(c) => IndexerCommand::FetchBatch { height: c.current.height },
        }
    }

    fn fail<T>(&mut self, cause: ChainError) -> (out: IndexerOutput<T>)
        ensures
            (*final(self), out) == old(self).after_failure::<T>(cause),
    {
        if self.failures < self.policy.mid_phase_retries {
            self.failures = self.failures + 1;
            IndexerOutput { emitted: None, next: self.pending() }
        } else {
            IndexerOutput { emitted: None, next: IndexerCommand::Abort { cause } }
        }
    }

    fn enter(&mut self, phase: Phase)
        ensures
            *final(self) == old(self).moved_to(phase),
    {
        self.phase = phase;
        self.failures = 0;
    }

    /// Takes one event and answers with the batch to deliver, if any, and the
    /// next command.
    pub fn step<T>(&mut self, event: IndexerEvent<T>) -> (out: IndexerOutput<T>)
        ensures
            (*final(self), out) == old(self).step_spec(event),
    {
        match (self.phase, event) {
            (Phase::Uninitialized, IndexerEvent::HeadResolved(head)) => {
                self.enter(
                    Phase::Descending(
                        IndexerCursor {
                            current: head,
                            baseline_height: head.height,
                            backfill_floor: None,
                        },
                    ),
                );
                IndexerOutput {
                    emitted: None,
                    next: IndexerCommand::FetchBatch { height: head.height },
                }
            },
            (Phase::Uninitialized, IndexerEvent::HeadFailed(_)) => IndexerOutput {
                emitted: None,
                next: IndexerCommand::ResolveHead { delay: BASELINE_RETRY_DELAY },
            },
            (Phase::Descending(c), IndexerEvent::BatchFetched(items)) => {
                let batch = TransactionBatch { height: c.current.height, transactions: items };
                if c.current.height > 0 {
                    let below: u64 = c.current.height - 1;
                    self.enter(
                        Phase::Descending(
                            IndexerCursor {
                                current: BlockHandle { hash: c.current.hash, height: below },
                                baseline_height: c.baseline_height,
                                backfill_floor: c.backfill_floor,
                            },
                        ),
                    );
                    IndexerOutput {
                        emitted: Some(batch),
                        next: IndexerCommand::FetchBatch { height: below },
                    }
                } else {
                    self.enter(Phase::CaughtUp(c));
                    IndexerOutput {
                        emitted: Some(batch),
                        next: IndexerCommand::ResolveHead { delay: 0 },
                    }
                }
            },
            (Phase::Polling(c), IndexerEvent::BatchFetched(items)) => {
                let above_floor = match c.backfill_floor {
                    Some(f) => c.current.height > f,
                    None => false,
                };
                if above_floor {
                    let batch = TransactionBatch { height: c.current.height, transactions: items };
                    let below: u64 = c.current.height - 1;
                    let parent = IndexerCursor {
                        current: BlockHandle { hash: c.current.hash, height: below },
                        baseline_height: c.baseline_height,
                        backfill_floor: c.backfill_floor,
                    };
                    let still_above = match c.backfill_floor {
                        Some(f) => below > f,
                        None => false,
                    };
                    if still_above {
                        self.enter(Phase::Polling(parent));
                        IndexerOutput {
                            emitted: Some(batch),
                            next: IndexerCommand::FetchBatch { height: below },
                        }
                    } else {
                        self.enter(Phase::CaughtUp(parent));
                        IndexerOutput {
                            emitted: Some(batch),
                            next: IndexerCommand::ResolveHead { delay: 0 },
                        }
                    }
                } else {
                    self.enter(Phase::CaughtUp(c));
                    IndexerOutput { emitted: None, next: IndexerCommand::ResolveHead { delay: 0 } }
                }
            },
            (Phase::Descending(_), IndexerEvent::BatchFailed(cause)) => self.fail(cause),
            (Phase::Polling(_), IndexerEvent::BatchFailed(cause)) => self.fail(cause),
            (Phase::CaughtUp(c), IndexerEvent::HeadResolved(head)) => {
                if head.height <= c.baseline_height {
                    self.enter(Phase::CaughtUp(c));
                    IndexerOutput { emitted: None, next: IndexerCommand::Pause }
                } else {
                    self.enter(
                        Phase::Polling(
                            IndexerCursor {
                                current: head,
                                baseline_height: c.baseline_height,
                                backfill_floor: Some(c.baseline_height),
                            },
                        ),
                    );
                    IndexerOutput {
                        emitted: None,
                        next: IndexerCommand::FetchBatch { height: head.height },
                    }
                }
            },
            (Phase::CaughtUp(_), IndexerEvent::HeadFailed(cause)) => self.fail(cause),
            _ => IndexerOutput { emitted: None, next: self.pending() },
        }
    }
}

} // verus!
