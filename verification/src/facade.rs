//! The read operations against the node, as far as they decide anything.
//!
//! Each operation is a short conversation with the node: a call, then
//! further calls that depend on what came back. The caller makes the calls;
//! the machines here say which call is next and what the operation yields.
//! An operation yields all of its result or an error, never a part.

use crate::chain::{BlockHandle, BlockHash, TransactionBatch};
use crate::error::ChainError;
use vstd::prelude::*;

verus! {

/// Resolving the latest finalized block: first the block's hash, then the
/// block info for that hash, which gives the height.
#[derive(Clone, Debug, PartialEq, Eq)]
pub enum HeadResolution {
    AwaitingFinalized,
    AwaitingInfo { hash: BlockHash },
    Resolved { head: BlockHandle },
    Failed { cause: ChainError },
}

/// The result of one of the two calls behind the head.
#[derive(Debug, PartialEq, Eq)]
pub enum HeadEvent {
    /// The hash of the last finalized block.
    Finalized(Result<BlockHash, ChainError>),
    /// The height that the block info gives for the hash asked about.
    Info(Result<u64, ChainError>),
}

/// The call to make next while resolving the head.
#[derive(Clone, Copy, Debug, PartialEq, Eq)]
pub enum HeadCommand {
    ResolveFinalized,
    FetchBlockInfo { hash: BlockHash },
    Finish,
}

impl HeadResolution {
    /// The call a state waits for.
    pub open spec fn pending_spec(&self) -> HeadCommand {
        match *self {
            HeadResolution::AwaitingFinalized => HeadCommand::ResolveFinalized,
            HeadResolution::AwaitingInfo { hash } => HeadCommand::FetchBlockInfo { hash },
            HeadResolution::Resolved { .. } => HeadCommand::Finish,
            HeadResolution::Failed { .. } => HeadCommand::Finish,
        }
    }

    /// The state after `event`. A result that the state does not wait for
    /// changes nothing.
    pub open spec fn step_spec(self, event: HeadEvent) -> HeadResolution {
        match (self, event) {
            (HeadResolution::AwaitingFinalized, HeadEvent::Finalized(Ok(hash))) => {
                HeadResolution::AwaitingInfo { hash }
            },
            (HeadResolution::AwaitingFinalized, HeadEvent::Finalized(Err(cause))) => {
                HeadResolution::Failed { cause }
            },
            (HeadResolution::AwaitingInfo { hash }, HeadEvent::Info(Ok(height))) => {
                HeadResolution::Resolved { head: BlockHandle { hash, height } }
            },
            (HeadResolution::AwaitingInfo { .. }, HeadEvent::Info(Err(cause))) => {
                HeadResolution::Failed { cause }
            },
            (state, _) => state,
        }
    }

    /// What the operation yields: nothing while a call is outstanding.
    pub open spec fn outcome(self) -> Option<Result<BlockHandle, ChainError>> {
        match self {
            HeadResolution::Resolved { head } => Some(Ok(head)),
            HeadResolution::Failed { cause } => Some(Err(cause)),
            _ => None,
        }
    }

    /// The operation before its first call.
    pub fn begin() -> (state: HeadResolution)
        ensures
            state == HeadResolution::AwaitingFinalized,
    {
        HeadResolution::AwaitingFinalized
    }

    /// The call the state waits for.
    pub fn pending(&self) -> (cmd: HeadCommand)
        ensures
            cmd == self.pending_spec(),
    {
        match self {
            HeadResolution::AwaitingFinalized => HeadCommand::ResolveFinalized,
            HeadResolution::AwaitingInfo { hash } => HeadCommand::FetchBlockInfo { hash: *hash },
            HeadResolution::Resolved { .. } => HeadCommand::Finish,
            HeadResolution::Failed { .. } => HeadCommand::Finish,
        }
    }

    /// Takes the result of a call and moves on.
    pub fn step(self, event: HeadEvent) -> (next: HeadResolution)
        ensures
            next == self.step_spec(event),
    {
        match (self, event) {
            (HeadResolution::AwaitingFinalized, HeadEvent::Finalized(Ok(hash))) => {
                HeadResolution::AwaitingInfo { hash }
            },
            (HeadResolution::AwaitingFinalized, HeadEvent::Finalized(Err(cause))) => {
                HeadResolution::Failed { cause }
            },
            (HeadResolution::AwaitingInfo { hash }, HeadEvent::Info(Ok(height))) => {
                HeadResolution::Resolved { head: BlockHandle { hash, height } }
            },
            (HeadResolution::AwaitingInfo { .. }, HeadEvent::Info(Err(cause))) => {
                HeadResolution::Failed { cause }
            },
            (state, _) => state,
        }
    }

    /// Ends the operation.
    pub fn finish(self) -> (result: Option<Result<BlockHandle, ChainError>>)
        ensures
            result == self.outcome(),
    {
        match self {
            HeadResolution::Resolved { head } => Some(Ok(head)),
            HeadResolution::Failed { cause } => Some(Err(cause)),
            _ => None,
        }
    }
}

/// The head that two successful calls give is the finalized hash with the
/// height its block info reports; a failure of either call is the failure of
/// the operation, and the second call is made only after the first succeeded.
pub proof fn theorem_head_resolution(
    finalized: Result<BlockHash, ChainError>,
    info: Result<u64, ChainError>,
)
    ensures
        finalized is Err ==> HeadResolution::AwaitingFinalized.step_spec(
            HeadEvent::Finalized(finalized),
        ).outcome() == Some(Err::<BlockHandle, ChainError>(finalized->Err_0)),
        finalized is Ok ==> HeadResolution::AwaitingFinalized.step_spec(
            HeadEvent::Finalized(finalized),
        ).pending_spec() == (HeadCommand::FetchBlockInfo { hash: finalized->Ok_0 }),
        finalized is Ok ==> HeadResolution::AwaitingFinalized.step_spec(
            HeadEvent::Finalized(finalized),
        ).step_spec(HeadEvent::Info(info)).outcome() == Some(
            match info {
                Ok(height) => Ok(BlockHandle { hash: finalized->Ok_0, height }),
                Err(cause) => Err(cause),
            },
        ),
{
}

/// Where a scan stands.
#[derive(Clone, Copy, Debug, PartialEq, Eq)]
pub enum ScanPhase<K> {
    /// The next key of the listing is being read.
    Listing,
    /// The record of `key` is being fetched.
    Fetching { key: K },
    /// The listing has ended and every record was fetched.
    Done,
    /// The listing or a lookup failed.
    Failed,
}

/// What a scan holds, as mathematics.
pub struct ScanModel<K, V> {
    pub phase: ScanPhase<K>,
    /// The pairs fetched so far, in the order of the listing.
    pub entries: Seq<(K, V)>,
    /// What the first failure reported.
    pub cause: Option<ChainError>,
}

/// What the caller reports to a scan.
#[derive(Debug, PartialEq, Eq)]
pub enum ScanEvent<K, V> {
    /// The listing gave its next key.
    Listed(K),
    /// The listing has no further key.
    ListingEnded,
    /// The listing could not be opened, or broke off.
    ListingFailed(ChainError),
    /// The record of the key asked about.
    Fetched(V),
    /// The lookup of the key asked about failed.
    FetchFailed(ChainError),
}

/// The call to make next during a scan.
#[derive(Clone, Copy, Debug, PartialEq, Eq)]
pub enum ScanCommand<K> {
    /// Read the next key of the listing.
    NextKey,
    /// Fetch the record of `key`.
    Fetch { key: K },
    /// The scan is over.
    Finish,
}

impl<K, V> ScanModel<K, V> {
    /// A scan that has read nothing yet.
    pub open spec fn fresh() -> ScanModel<K, V> {
        ScanModel { phase: ScanPhase::Listing, entries: Seq::empty(), cause: None }
    }

    /// A scan that has failed with `cause`: it holds no pair.
    pub open spec fn failed(cause: ChainError) -> ScanModel<K, V> {
        ScanModel { phase: ScanPhase::Failed, entries: Seq::empty(), cause: Some(cause) }
    }

    /// The call a scan waits for.
    pub open spec fn pending(self) -> ScanCommand<K> {
        match self.phase {
            ScanPhase::Listing => ScanCommand::NextKey,
            ScanPhase::Fetching { key } => ScanCommand::Fetch { key },
            ScanPhase::Done => ScanCommand::Finish,
            ScanPhase::Failed => ScanCommand::Finish,
        }
    }

    /// The scan after `event`. The first failure discards what was fetched;
    /// a report that the scan does not wait for changes nothing.
    pub open spec fn step(self, event: ScanEvent<K, V>) -> ScanModel<K, V> {
        match (self.phase, event) {
            (ScanPhase::Listing, ScanEvent::Listed(key)) => ScanModel {
                phase: ScanPhase::Fetching { key },
                ..self
            },
            (ScanPhase::Listing, ScanEvent::ListingEnded) => ScanModel {
                phase: ScanPhase::Done,
                ..self
            },
            (ScanPhase::Listing, ScanEvent::ListingFailed(cause)) => ScanModel::failed(cause),
            (ScanPhase::Fetching { key }, ScanEvent::Fetched(record)) => ScanModel {
                phase: ScanPhase::Listing,
                entries: self.entries.push((key, record)),
                cause: self.cause,
            },
            (ScanPhase::Fetching { .. }, ScanEvent::FetchFailed(cause)) => ScanModel::failed(cause),
            _ => self,
        }
    }

    /// What the scan yields: every pair, or the first failure, and nothing
    /// while it is under way.
    pub open spec fn outcome(self) -> Option<Result<Seq<(K, V)>, ChainError>> {
        match self.phase {
            ScanPhase::Done => Some(Ok(self.entries)),
            ScanPhase::Failed => match self.cause {
                Some(cause) => Some(Err(cause)),
                None => Some(Err(ChainError::AssemblyIncomplete)),
            },
            _ => None,
        }
    }

    /// The scan after all of `events`, taken in order.
    pub open spec fn after(self, events: Seq<ScanEvent<K, V>>) -> ScanModel<K, V>
        decreases events.len(),
    {
        if events.len() == 0 {
            self
        } else {
            self.step(events[0]).after(events.drop_first())
        }
    }
}

/// A walk over a listing of keys that fetches one record per key: the shape
/// of both the balance query (accounts, then each account's amount) and the
/// instance query (contract addresses, then each instance's info).
#[derive(Debug, PartialEq, Eq)]
pub struct Scan<K, V> {
    pub phase: ScanPhase<K>,
    pub entries: Vec<(K, V)>,
    pub cause: Option<ChainError>,
}

impl<K, V> View for Scan<K, V> {
    type V = ScanModel<K, V>;

    open spec fn view(&self) -> ScanModel<K, V> {
        ScanModel { phase: self.phase, entries: self.entries@, cause: self.cause }
    }
}

impl<K: Copy, V> Scan<K, V> {
    /// A scan that has read nothing yet.
    pub fn begin() -> (scan: Scan<K, V>)
        ensures
            scan@ == ScanModel::<K, V>::fresh(),
    {
        Scan { phase: ScanPhase::Listing, entries: Vec::new(), cause: None }
    }

    /// The call the scan waits for.
    pub fn pending(&self) -> (cmd: ScanCommand<K>)
        ensures
            cmd == self@.pending(),
    {
        match self.phase {
            ScanPhase::Listing => ScanCommand::NextKey,
            ScanPhase::Fetching { key } => ScanCommand::Fetch { key },
            ScanPhase::Done => ScanCommand::Finish,
            ScanPhase::Failed => ScanCommand::Finish,
        }
    }

    /// Takes one report and answers with the next call.
    pub fn step(&mut self, event: ScanEvent<K, V>) -> (cmd: ScanCommand<K>)
        ensures
            final(self)@ == old(self)@.step(event),
            cmd == final(self)@.pending(),
    {
        match (self.phase, event) {
            (ScanPhase::Listing, ScanEvent::Listed(key)) => {
                self.phase = ScanPhase::Fetching { key };
            },
            (ScanPhase::Listing, ScanEvent::ListingEnded) => {
                self.phase = ScanPhase::Done;
            },
            (ScanPhase::Listing, ScanEvent::ListingFailed(cause)) => {
                self.phase = ScanPhase::Failed;
                self.entries = Vec::new();
                self.cause = Some(cause);
            },
            (ScanPhase::Fetching { key }, ScanEvent::Fetched(record)) => {
                self.phase = ScanPhase::Listing;
                self.entries.push((key, record));
            },
            (ScanPhase::Fetching { .. }, ScanEvent::FetchFailed(cause)) => {
                self.phase = ScanPhase::Failed;
                self.entries = Vec::new();
                self.cause = Some(cause);
            },
            _ => {},
        }
        self.pending()
    }

    /// Ends the scan: every pair in listing order, or the first failure;
    /// `None` while a call is outstanding.
    pub fn finish(self) -> (result: Option<Result<Vec<(K, V)>, ChainError>>)
        ensures
            match (result, self@.outcome()) {
                (Some(Ok(pairs)), Some(Ok(entries))) => pairs@ == entries,
                (Some(Err(cause)), Some(Err(expected))) => cause == expected,
                (None, None) => true,
                _ => false,
            },
    {
        match self.phase {
            ScanPhase::Done => Some(Ok(self.entries)),
            ScanPhase::Failed => match self.cause {
                Some(cause) => Some(Err(cause)),
                None => Some(Err(ChainError::AssemblyIncomplete)),
            },
            _ => None,
        }
    }
}

/// The reports of a scan in which every lookup succeeds: for each pair the
/// key listed and its record fetched, then the end of the listing.
pub open spec fn complete_scan_events<K, V>(pairs: Seq<(K, V)>) -> Seq<ScanEvent<K, V>> {
    Seq::new(
        2 * pairs.len() + 1,
        |i: int|
            if i == 2 * pairs.len() {
                ScanEvent::ListingEnded
            } else if i % 2 == 0 {
                ScanEvent::Listed(pairs[i / 2].0)
            } else {
                ScanEvent::Fetched(pairs[i / 2].1)
            },
    )
}

proof fn lemma_complete_scan<K, V>(scan: ScanModel<K, V>, pairs: Seq<(K, V)>)
    requires
        scan.phase == ScanPhase::<K>::Listing,
    ensures
        scan.after(complete_scan_events(pairs)) == (ScanModel {
            phase: ScanPhase::Done,
            entries: scan.entries + pairs,
            cause: scan.cause,
        }),
    decreases pairs.len(),
{
    let events = complete_scan_events(pairs);
    let rest = events.drop_first();
    let s1 = scan.step(events[0]);
    assert(scan.after(events) == s1.after(rest));
    if pairs.len() == 0 {
        assert(rest.len() == 0);
        assert(scan.entries + pairs =~= scan.entries);
    } else {
        let s2 = s1.step(rest[0]);
        let tail = rest.drop_first();
        assert(rest[0] == events[1]);
        assert(s1.after(rest) == s2.after(tail));
        assert(tail =~= complete_scan_events(pairs.drop_first())) by {
            assert forall|i: int| 0 <= i < tail.len() implies tail[i] == complete_scan_events(
                pairs.drop_first(),
            )[i] by {
                assert(tail[i] == events[i + 2]);
                assert((i + 2) / 2 == i / 2 + 1);
                assert((i + 2) % 2 == i % 2);
            }
        }
        lemma_complete_scan(s2, pairs.drop_first());
        assert(s2.entries + pairs.drop_first() =~= scan.entries + pairs);
    }
}

/// A scan in which the listing and every lookup succeed yields every pair,
/// in the order of the listing.
pub proof fn theorem_scan_complete<K, V>(pairs: Seq<(K, V)>)
    ensures
        ScanModel::<K, V>::fresh().after(complete_scan_events(pairs)).outcome() == Some(
            Ok::<Seq<(K, V)>, ChainError>(pairs),
        ),
{
    lemma_complete_scan(ScanModel::<K, V>::fresh(), pairs);
    assert(Seq::<(K, V)>::empty() + pairs =~= pairs);
}

proof fn lemma_failed_scan_stays<K, V>(cause: ChainError, events: Seq<ScanEvent<K, V>>)
    ensures
        ScanModel::<K, V>::failed(cause).after(events) == ScanModel::<K, V>::failed(cause),
    decreases events.len(),
{
    if events.len() > 0 {
        lemma_failed_scan_stays(cause, events.drop_first());
    }
}

/// Whether `event` reports a failure that the scan, as it stands, waits for.
pub open spec fn scan_fails<K, V>(scan: ScanModel<K, V>, event: ScanEvent<K, V>) -> bool {
    match (scan.phase, event) {
        (ScanPhase::Listing, ScanEvent::ListingFailed(_)) => true,
        (ScanPhase::Fetching { .. }, ScanEvent::FetchFailed(_)) => true,
        _ => false,
    }
}

/// The error that a failure event carries.
pub open spec fn scan_failure_cause<K, V>(event: ScanEvent<K, V>) -> ChainError {
    match event {
        ScanEvent::ListingFailed(cause) => cause,
        ScanEvent::FetchFailed(cause) => cause,
        _ => ChainError::AssemblyIncomplete,
    }
}

/// Once the listing or a single lookup has failed, the scan yields that
/// failure and no pair at all, whatever was fetched before and whatever is
/// reported afterwards.
pub proof fn theorem_scan_failure_is_total<K, V>(
    scan: ScanModel<K, V>,
    failure: ScanEvent<K, V>,
    later: Seq<ScanEvent<K, V>>,
)
    requires
        scan_fails(scan, failure),
    ensures
        scan.step(failure).after(later).outcome() == Some(
            Err::<Seq<(K, V)>, ChainError>(scan_failure_cause(failure)),
        ),
        scan.step(failure).after(later).entries == Seq::<(K, V)>::empty(),
{
    lemma_failed_scan_stays::<K, V>(scan_failure_cause(failure), later);
}

/// What the caller reports while the transactions of one block stream in.
#[derive(Debug, PartialEq, Eq)]
pub enum StreamEvent<T> {
    /// The stream gave its next item.
    Item(T),
    /// The stream has no further item.
    Ended,
    /// The stream could not be opened, or broke off.
    Failed(ChainError),
}

/// The batch that a stream of reports gives: every item in order if the stream
/// ends without a failure, else the first failure. `None` if the reports stop
/// before the stream has ended or failed. Reports after the end or the
/// failure count for nothing.
pub open spec fn batch_of<T>(height: u64, reports: Seq<StreamEvent<T>>, so_far: Seq<T>) -> Option<
    Result<(u64, Seq<T>), ChainError>,
>
    decreases reports.len(),
{
    if reports.len() == 0 {
        None
    } else {
        match reports[0] {
            StreamEvent::Item(item) => batch_of(height, reports.drop_first(), so_far.push(item)),
            StreamEvent::Ended => Some(Ok((height, so_far))),
            StreamEvent::Failed(cause) => Some(Err(cause)),
        }
    }
}

/// Collects the transactions of the block at `height` from the reports of its
/// stream.
pub fn collect_batch<T>(height: u64, reports: Vec<StreamEvent<T>>) -> (result: Option<
    Result<TransactionBatch<T>, ChainError>,
>)
    ensures
        match (result, batch_of(height, reports@, Seq::empty())) {
            (Some(Ok(batch)), Some(Ok(expected))) => batch.height == expected.0
                && batch.transactions@ == expected.1,
            (Some(Err(cause)), Some(Err(expected))) => cause == expected,
            (None, None) => true,
            _ => false,
        },
{
    let mut items: Vec<T> = Vec::new();
    let ghost all = reports@;
    let ghost mut at: int = 0;
    assert(all.skip(0) =~= all);
    for report in it: reports
        invariant
            all == it.seq(),
            at == it.index(),
            0 <= at <= all.len(),
            batch_of(height, all, Seq::empty()) == batch_of(height, all.skip(at), items@),
    {
        proof {
            assert(all.skip(at)[0] == all[at]);
            assert(all.skip(at).drop_first() =~= all.skip(at + 1));
        }
        match report {
            StreamEvent::Item(item) => {
                items.push(item);
            },
            StreamEvent::Ended => {
                return Some(Ok(TransactionBatch { height, transactions: items }));
            },
            StreamEvent::Failed(cause) => {
                return Some(Err(cause));
            },
        }
        proof {
            at = at + 1;
        }
    }
    assert(all.skip(at).len() == 0);
    None
}

} // verus!
