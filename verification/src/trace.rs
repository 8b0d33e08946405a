//! What the indexer does over a whole sequence of events, and what holds of
//! every such sequence.

use crate::chain::{BlockHandle, TransactionBatch};
use crate::error::ChainError;
use crate::indexer::{
    Indexer, IndexerCommand, IndexerCursor, IndexerEvent, Phase, RetryPolicy,
    BASELINE_RETRY_DELAY,
};
use vstd::prelude::*;

verus! {

/// The machine after all of `events`, taken in order.
pub open spec fn after<T>(ix: Indexer, events: Seq<IndexerEvent<T>>) -> Indexer
    decreases events.len(),
{
    if events.len() == 0 {
        ix
    } else {
        after(ix.step_spec(events[0]).0, events.drop_first())
    }
}

/// The commands the machine answers `events` with, one per event.
pub open spec fn commands<T>(ix: Indexer, events: Seq<IndexerEvent<T>>) -> Seq<IndexerCommand>
    decreases events.len(),
{
    if events.len() == 0 {
        Seq::empty()
    } else {
        seq![ix.step_spec(events[0]).1.next] + commands(
            ix.step_spec(events[0]).0,
            events.drop_first(),
        )
    }
}

/// The batches the machine emits over `events`, in the order of emission.
pub open spec fn emitted<T>(ix: Indexer, events: Seq<IndexerEvent<T>>) -> Seq<TransactionBatch<T>>
    decreases events.len(),
{
    if events.len() == 0 {
        Seq::empty()
    } else {
        let (next, out) = ix.step_spec(events[0]);
        let rest = emitted(next, events.drop_first());
        match out.emitted {
            Some(batch) => seq![batch] + rest,
            None => rest,
        }
    }
}

/// Whether `event` makes the machine take a resolved head as its new
/// position: the baseline, or the head of a polling round.
pub open spec fn adopts<T>(ix: Indexer, event: IndexerEvent<T>) -> bool {
    match (ix.phase, event) {
        (Phase::Uninitialized, IndexerEvent::HeadResolved(_)) => true,
        (Phase::CaughtUp(c), IndexerEvent::HeadResolved(head)) => head.height > c.baseline_height,
        _ => false,
    }
}

/// The emitted heights over `events`, split into descending runs: a new run
/// begins whenever a head is adopted. Element 0 holds what the run in
/// progress at the start still emits (nothing, for a fresh machine).
pub open spec fn runs<T>(ix: Indexer, events: Seq<IndexerEvent<T>>) -> Seq<Seq<u64>>
    decreases events.len(),
{
    if events.len() == 0 {
        seq![Seq::empty()]
    } else {
        let (next, out) = ix.step_spec(events[0]);
        let rest = runs(next, events.drop_first());
        if adopts(ix, events[0]) {
            seq![Seq::empty()] + rest
        } else {
            match out.emitted {
                Some(batch) => rest.update(0, seq![batch.height] + rest[0]),
                None => rest,
            }
        }
    }
}

/// Each height is one below the height before it.
pub open spec fn steps_down_by_one(run: Seq<u64>) -> bool {
    forall|i: int| 0 < i < run.len() ==> (#[trigger] run[i]) + 1 == run[i - 1]
}

/// Each height is below the height before it.
pub open spec fn strictly_decreasing(run: Seq<u64>) -> bool {
    forall|i: int, j: int| 0 <= i < j < run.len() ==> run[i] > run[j]
}

proof fn lemma_steps_down_decreases(run: Seq<u64>, i: int, j: int)
    requires
        steps_down_by_one(run),
        0 <= i <= j < run.len(),
    ensures
        run[i] == run[j] + (j - i),
    decreases j - i,
{
    if i < j {
        lemma_steps_down_decreases(run, i, j - 1);
        assert(run[j] + 1 == run[j - 1]);
    }
}

proof fn lemma_runs_shape<T>(ix: Indexer, events: Seq<IndexerEvent<T>>)
    ensures
        runs(ix, events).len() >= 1,
        forall|k: int|
            0 <= k < runs(ix, events).len() ==> steps_down_by_one(#[trigger] runs(ix, events)[k]),
        runs(ix, events)[0].len() > 0 ==> ix.pending_spec() == (IndexerCommand::FetchBatch {
            height: runs(ix, events)[0][0],
        }),
    decreases events.len(),
{
    if events.len() > 0 {
        let (next, out) = ix.step_spec(events[0]);
        let rest = runs(next, events.drop_first());
        lemma_runs_shape(next, events.drop_first());
        let all = runs(ix, events);
        if adopts(ix, events[0]) {
            assert(all =~= seq![Seq::empty()] + rest);
            assert forall|k: int| 0 <= k < all.len() implies steps_down_by_one(#[trigger] all[k]) by {
                if k > 0 {
                    assert(all[k] == rest[k - 1]);
                }
            }
        } else {
            match out.emitted {
                Some(batch) => {
                    let head_run = seq![batch.height] + rest[0];
                    assert(all =~= rest.update(0, head_run));
                    assert(ix.pending_spec() == IndexerCommand::FetchBatch {
                        height: batch.height,
                    });
                    assert(steps_down_by_one(head_run)) by {
                        assert forall|i: int| 0 < i < head_run.len() implies (
                        #[trigger] head_run[i]) + 1 == head_run[i - 1] by {
                            if i == 1 {
                                assert(head_run[1] == rest[0][0]);
                                assert(head_run[0] == batch.height);
                            } else {
                                assert(head_run[i] == rest[0][i - 1]);
                                assert(head_run[i - 1] == rest[0][i - 2]);
                            }
                        }
                    }
                    assert forall|k: int| 0 <= k < all.len() implies steps_down_by_one(
                        #[trigger] all[k],
                    ) by {
                        if k > 0 {
                            assert(all[k] == rest[k]);
                        }
                    }
                },
                None => {
                    assert(all =~= rest);
                },
            }
        }
    }
}

/// Within every descending run, whatever the events, each emitted height is
/// exactly one below the one emitted before it: the heights of a run
/// strictly decrease and none between two of them is left out.
pub proof fn theorem_runs_descend<T>(ix: Indexer, events: Seq<IndexerEvent<T>>)
    ensures
        forall|k: int|
            0 <= k < runs(ix, events).len() ==> steps_down_by_one(#[trigger] runs(ix, events)[k])
                && strictly_decreasing(runs(ix, events)[k]),
{
    lemma_runs_shape(ix, events);
    let all = runs(ix, events);
    assert forall|k: int| 0 <= k < all.len() implies steps_down_by_one(#[trigger] all[k])
        && strictly_decreasing(all[k]) by {
        let run = all[k];
        assert forall|i: int, j: int| 0 <= i < j < run.len() implies run[i] > run[j] by {
            lemma_steps_down_decreases(run, i, j);
        }
    }
}

/// The heights of a sequence of batches.
pub open spec fn heights<T>(batches: Seq<TransactionBatch<T>>) -> Seq<u64> {
    Seq::new(batches.len(), |i: int| batches[i].height)
}

/// The runs, laid end to end, are the heights of the emitted batches in the
/// order of emission: the runs leave out no emission and add none.
pub proof fn theorem_runs_are_the_emissions<T>(ix: Indexer, events: Seq<IndexerEvent<T>>)
    ensures
        runs(ix, events).flatten() == heights(emitted(ix, events)),
    decreases events.len(),
{
    let all = runs(ix, events);
    if events.len() == 0 {
        assert(all.drop_first() =~= Seq::<Seq<u64>>::empty());
        assert(all.drop_first().flatten() =~= Seq::<u64>::empty());
        assert(all.flatten() =~= heights(emitted(ix, events)));
    } else {
        let (next, out) = ix.step_spec(events[0]);
        let rest = runs(next, events.drop_first());
        let later = emitted(next, events.drop_first());
        theorem_runs_are_the_emissions(next, events.drop_first());
        lemma_runs_shape(next, events.drop_first());
        if adopts(ix, events[0]) {
            assert(all.drop_first() =~= rest);
            assert(all.flatten() =~= rest.flatten());
        } else {
            match out.emitted {
                Some(batch) => {
                    assert(all.first() == seq![batch.height] + rest[0]);
                    assert(all.drop_first() =~= rest.drop_first());
                    assert(rest.flatten() == rest.first() + rest.drop_first().flatten());
                    assert(all.flatten() =~= seq![batch.height] + rest.flatten());
                    assert(heights(seq![batch] + later) =~= seq![batch.height] + heights(later));
                },
                None => {},
            }
        }
    }
}

/// The events of baseline establishment: each of `failures` in turn, then
/// the head.
pub open spec fn baseline_events<T>(failures: Seq<ChainError>, head: BlockHandle) -> Seq<
    IndexerEvent<T>,
> {
    Seq::new(
        failures.len() + 1,
        |i: int|
            if i < failures.len() {
                IndexerEvent::HeadFailed(failures[i])
            } else {
                IndexerEvent::HeadResolved(head)
            },
    )
}

/// The answers to baseline establishment: the fixed delay after each of `n`
/// failures, then the fetch of the baseline's batch.
pub open spec fn baseline_commands(n: nat, head: BlockHandle) -> Seq<IndexerCommand> {
    Seq::new(
        n + 1,
        |i: int|
            if i < n {
                IndexerCommand::ResolveHead { delay: BASELINE_RETRY_DELAY }
            } else {
                IndexerCommand::FetchBatch { height: head.height }
            },
    )
}

/// When resolving the head fails any number of times and then succeeds, a
/// fresh machine answers every failure by asking again after the fixed
/// delay, emits nothing meanwhile, and then starts the descent at the
/// resolved head. With the call it starts out pending, that is one attempt
/// more than there were failures.
pub proof fn theorem_baseline_retries<T>(
    policy: RetryPolicy,
    failures: Seq<ChainError>,
    head: BlockHandle,
)
    ensures
        Indexer::initial(policy).pending_spec() == (IndexerCommand::ResolveHead { delay: 0 }),
        commands(Indexer::initial(policy), baseline_events::<T>(failures, head))
            == baseline_commands(failures.len(), head),
        emitted(Indexer::initial(policy), baseline_events::<T>(failures, head)) == Seq::<
            TransactionBatch<T>,
        >::empty(),
        after(Indexer::initial(policy), baseline_events::<T>(failures, head)) == (Indexer {
            phase: Phase::Descending(IndexerCursor::at_baseline(head)),
            policy,
            failures: 0,
        }),
    decreases failures.len(),
{
    let ix = Indexer::initial(policy);
    let events = baseline_events::<T>(failures, head);
    let rest = events.drop_first();
    let (next, out) = ix.step_spec(events[0]);
    assert(emitted(ix, events) == emitted(next, rest));
    assert(after(ix, events) == after(next, rest));
    if failures.len() == 0 {
        assert(rest.len() == 0);
        assert(commands(next, rest) =~= Seq::empty());
        assert(emitted(next, rest) =~= Seq::empty());
        assert(after(next, rest) == next);
        assert(commands(ix, events) =~= baseline_commands(0, head));
    } else {
        let fewer = failures.drop_first();
        assert(rest =~= baseline_events::<T>(fewer, head));
        assert(next == ix);
        theorem_baseline_retries::<T>(policy, fewer, head);
        assert(commands(ix, events) =~= baseline_commands(failures.len(), head));
    }
}

/// The events of a descent from a head over `batches`, one batch per height
/// from the head down.
pub open spec fn descent_events<T>(batches: Seq<Vec<T>>) -> Seq<IndexerEvent<T>> {
    Seq::new(batches.len(), |i: int| IndexerEvent::BatchFetched(batches[i]))
}

/// The batches of a descent from height `top`: `batches[i]` at height
/// `top - i`.
pub open spec fn descent_batches<T>(top: u64, batches: Seq<Vec<T>>) -> Seq<TransactionBatch<T>> {
    Seq::new(
        batches.len(),
        |i: int| TransactionBatch { height: (top - i) as u64, transactions: batches[i] },
    )
}

proof fn lemma_descent<T>(ix: Indexer, cursor: IndexerCursor, batches: Seq<Vec<T>>)
    requires
        ix.phase == Phase::Descending(cursor),
        batches.len() == cursor.current.height + 1,
    ensures
        emitted(ix, descent_events(batches)) == descent_batches(cursor.current.height, batches),
        after(ix, descent_events(batches)) == ix.moved_to(
            Phase::CaughtUp(
                IndexerCursor {
                    current: BlockHandle { hash: cursor.current.hash, height: 0 },
                    baseline_height: cursor.baseline_height,
                    backfill_floor: cursor.backfill_floor,
                },
            ),
        ),
        commands(ix, descent_events(batches)).len() == batches.len(),
        commands(ix, descent_events(batches)).last() == (IndexerCommand::ResolveHead { delay: 0 }),
    decreases batches.len(),
{
    let events = descent_events(batches);
    let rest = events.drop_first();
    let (next, out) = ix.step_spec(events[0]);
    let top = cursor.current.height;
    assert(rest =~= descent_events(batches.drop_first()));
    assert(after(ix, events) == after(next, rest));
    if top == 0 {
        assert(rest.len() == 0);
        assert(emitted(next, rest) =~= Seq::empty());
        assert(commands(next, rest) =~= Seq::empty());
        assert(after(next, rest) == next);
        assert(emitted(ix, events) =~= descent_batches(top, batches));
    } else {
        lemma_descent(next, cursor.parent(), batches.drop_first());
        assert(emitted(ix, events) =~= descent_batches(top, batches));
        let tail = commands(next, rest);
        assert(commands(ix, events) == seq![out.next] + tail);
        assert(commands(ix, events).last() == tail.last());
    }
}

/// A full descent that then finds the chain stalled. From a fresh machine,
/// the head at height `H`, then one batch for each of the `H + 1` heights,
/// then a head no higher than `H`: the machine emits exactly the `H + 1`
/// batches handed in, at the heights `H, H - 1, .., 0` in that order, so each
/// height from 0 to `H` once; it ends waiting at height 0 with the baseline
/// unchanged, and its answer to the stalled head is to pause.
pub proof fn theorem_full_descent<T>(
    policy: RetryPolicy,
    head: BlockHandle,
    batches: Seq<Vec<T>>,
    stalled: BlockHandle,
)
    requires
        batches.len() == head.height + 1,
        stalled.height <= head.height,
    ensures
        ({
            let events = seq![IndexerEvent::HeadResolved(head)] + descent_events(batches);
            let waiting = after(Indexer::initial(policy), events);
            &&& emitted(Indexer::initial(policy), events) == descent_batches(head.height, batches)
            &&& emitted(Indexer::initial(policy), events).len() == head.height + 1
            &&& forall|h: int|
                0 <= h <= head.height ==> (#[trigger] emitted(Indexer::initial(policy), events)[
                    head.height - h
                ]).height == h
            &&& waiting.phase == Phase::CaughtUp(
                IndexerCursor {
                    current: BlockHandle { hash: head.hash, height: 0 },
                    baseline_height: head.height,
                    backfill_floor: None,
                },
            )
            &&& commands(Indexer::initial(policy), events).last() == (IndexerCommand::ResolveHead {
                delay: 0,
            })
            &&& waiting.step_spec(IndexerEvent::<T>::HeadResolved(stalled)).0 == waiting
            &&& waiting.step_spec(IndexerEvent::<T>::HeadResolved(stalled)).1 == (
            crate::indexer::IndexerOutput::<T> { emitted: None, next: IndexerCommand::Pause })
        }),
{
    let ix = Indexer::initial(policy);
    let events = seq![IndexerEvent::HeadResolved(head)] + descent_events(batches);
    let (next, out) = ix.step_spec(events[0]);
    assert(events.drop_first() =~= descent_events(batches));
    lemma_descent(next, IndexerCursor::at_baseline(head), batches);
    assert(emitted(ix, events) == emitted(next, descent_events(batches)));
    assert(after(ix, events) == after(next, descent_events(batches)));
    let tail = commands(next, descent_events(batches));
    assert(commands(ix, events) == seq![out.next] + tail);
    assert(commands(ix, events).last() == tail.last());
}

} // verus!
