//! Catching up with the chain: from the scanned cursor to the tip observed at
//! the start, in batches, in order, without gaps.

use vstd::prelude::*;
use crate::account::{AccountModel, SpendingAccount};
use crate::error::SyncError;
use crate::types::{BlockId, TransactionId};

verus! {

/// How many blocks are asked for and scanned at a time.
pub const BATCH_SIZE: u64 = 100;

/// How far a synchronisation has come.
#[derive(Clone, Copy, Debug, PartialEq, Eq, Structural)]
pub enum SyncStage {
    /// The chain tip has been asked for.
    AwaitingTip,
    /// The store's scanned height has been asked for.
    AwaitingCursor,
    /// The blocks above the cursor up to `end` have been asked for.
    AwaitingBlocks { end: u64 },
    /// The scan of the blocks above the cursor up to `end` has been asked for.
    AwaitingScan { end: u64 },
    /// The cursor has reached the tip observed at the start.
    Done,
    Failed(SyncError),
}

/// One synchronisation in flight. `target` is the tip observed at its start;
/// a tip that moves later is not chased.
#[derive(Clone, Copy, Debug, PartialEq, Eq, Structural)]
pub struct SyncRun {
    pub target: u64,
    pub stage: SyncStage,
}

/// What came back from the chain index or the store.
#[derive(Clone, Debug, PartialEq, Eq)]
pub enum SyncEvent {
    /// The height of the latest block of the chain index.
    Tip { height: u64 },
    /// The store's highest scanned height, or `None` where it has scanned nothing.
    Cursor(Option<u64>),
    /// The heights of the blocks received for the range asked for, as they came.
    Blocks(Vec<u64>),
    /// The store has scanned and committed the range, and has found these
    /// transactions of the account in its blocks.
    Scanned { mined: Vec<TransactionId> },
    /// The chain index could not be reached, or the stream broke.
    TransportFailure,
    /// The store failed.
    StoreFailure,
}

/// What the surrounding program is to do next.
#[derive(Clone, Copy, Debug, PartialEq, Eq, Structural)]
pub enum SyncAction {
    GetLatestBlock,
    ReadCursor,
    /// Fetch the blocks from `start` to `end`, both included.
    GetBlockRange { start: u64, end: u64 },
    /// Hand the blocks from `start` to `end` to the store, in order.
    ScanRange { start: u64, end: u64 },
}

/// Whether `heights` are exactly the heights from `first` to `last`, in order.
pub open spec fn contiguous(heights: Seq<u64>, first: int, last: int) -> bool {
    &&& heights.len() == last - first + 1
    &&& forall|i: int| 0 <= i < heights.len() ==> heights[i] == first + i
}

/// The last height of the batch that follows `cursor` on the way to `target`.
pub open spec fn batch_end(cursor: u64, target: u64) -> u64 {
    if target - cursor > BATCH_SIZE {
        (cursor + BATCH_SIZE) as u64
    } else {
        target
    }
}

/// The run and the request that follow once the cursor stands on `cursor`:
/// done at the target, else the next batch.
pub open spec fn planned(target: u64, cursor: u64) -> (SyncRun, Option<SyncAction>) {
    if cursor >= target {
        (SyncRun { target, stage: SyncStage::Done }, None)
    } else {
        (
            SyncRun { target, stage: SyncStage::AwaitingBlocks { end: batch_end(cursor, target) } },
            Some(
                SyncAction::GetBlockRange {
                    start: (cursor + 1) as u64,
                    end: batch_end(cursor, target),
                },
            ),
        )
    }
}

impl SyncRun {
    /// The run as it starts.
    pub open spec fn started() -> SyncRun {
        SyncRun { target: 0, stage: SyncStage::AwaitingTip }
    }

    /// The run stopped with `error`.
    pub open spec fn failed(self, error: SyncError) -> SyncRun {
        SyncRun { stage: SyncStage::Failed(error), ..self }
    }

    /// Whether the run has ended.
    pub open spec fn is_over(self) -> bool {
        self.stage is Done || self.stage is Failed
    }

    /// The cursor after an event. It moves in two cases only: the store reports
    /// a higher scanned height at the start, or the store has scanned the batch
    /// that was received in order.
    pub open spec fn cursor_after(self, cursor: u64, event: SyncEvent) -> u64 {
        match (self.stage, event) {
            (SyncStage::AwaitingCursor, SyncEvent::Cursor(Some(height))) => if height > cursor {
                height
            } else {
                cursor
            },
            (SyncStage::AwaitingScan { end }, SyncEvent::Scanned { .. }) => if cursor < end {
                end
            } else {
                cursor
            },
            _ => cursor,
        }
    }

    /// The account after an event: the cursor moves as `cursor_after` says, a
    /// pending transaction that a scan has found in a block is pending no
    /// longer, and nothing else changes.
    pub open spec fn account_after(self, account: AccountModel, event: SyncEvent) -> AccountModel {
        let moved = account.scanned_to(self.cursor_after(account.scanned, event));
        match (self.stage, event) {
            (SyncStage::AwaitingScan { end }, SyncEvent::Scanned { mined }) => if account.scanned
                < end {
                moved.mined(mined@)
            } else {
                moved
            },
            _ => moved,
        }
    }

    /// The run after an event, and what is asked for in answer.
    pub open spec fn after(self, cursor: u64, event: SyncEvent) -> (SyncRun, Option<SyncAction>) {
        if self.is_over() {
            (self, None)
        } else if event is TransportFailure {
            (self.failed(SyncError::Transport), None)
        } else {
            match (self.stage, event) {
                (SyncStage::AwaitingTip, SyncEvent::Tip { height }) => (
                    SyncRun { target: height, stage: SyncStage::AwaitingCursor },
                    Some(SyncAction::ReadCursor),
                ),
                (SyncStage::AwaitingCursor, SyncEvent::Cursor(None)) => planned(
                    self.target,
                    cursor,
                ),
                (SyncStage::AwaitingCursor, SyncEvent::Cursor(Some(height))) => if height
                    < cursor {
                    (self.failed(SyncError::Inconsistent), None)
                } else {
                    planned(self.target, height)
                },
                (SyncStage::AwaitingBlocks { end }, SyncEvent::Blocks(heights)) => if cursor < end
                    && contiguous(heights@, cursor + 1, end as int) {
                    (
                        SyncRun { stage: SyncStage::AwaitingScan { end }, ..self },
                        Some(SyncAction::ScanRange { start: (cursor + 1) as u64, end }),
                    )
                } else {
                    (self.failed(SyncError::Inconsistent), None)
                },
                (SyncStage::AwaitingScan { end }, SyncEvent::Scanned { .. }) => if cursor < end {
                    planned(self.target, end)
                } else {
                    (self.failed(SyncError::Inconsistent), None)
                },
                _ => (self.failed(SyncError::Inconsistent), None),
            }
        }
    }

    /// What the run has come to, once it has ended.
    pub open spec fn outcome_value(self) -> Option<Result<(), SyncError>> {
        match self.stage {
            SyncStage::Done => Some(Ok(())),
            SyncStage::Failed(error) => Some(Err(error)),
            _ => None,
        }
    }

    /// What the run has come to, or `None` while it is in flight.
    pub fn outcome(&self) -> (outcome: Option<Result<(), SyncError>>)
        ensures
            outcome == self.outcome_value(),
    {
        match self.stage {
            SyncStage::Done => Some(Ok(())),
            SyncStage::Failed(error) => Some(Err(error)),
            _ => None,
        }
    }

    /// Takes the run one step on: interprets what came back, moves the
    /// account's cursor where a batch has been scanned, and says what to ask
    /// for next. `None` means that the run has ended.
    pub fn step(self, account: &mut SpendingAccount, event: SyncEvent) -> (next: (
        SyncRun,
        Option<SyncAction>,
    ))
        ensures
            next == self.after(old(account)@.scanned, event),
            final(account)@ == self.account_after(old(account)@, event),
    {
        let cursor: u64 = account.scanned_height();
        proof {
            assert(account@ == account@.scanned_to(cursor));
        }
        match self.stage {
            SyncStage::Done => (self, None),
            SyncStage::Failed(_) => (self, None),
            SyncStage::AwaitingTip => match event {
                SyncEvent::TransportFailure => (fail(self, SyncError::Transport), None),
                SyncEvent::Tip { height } => (
                    SyncRun { target: height, stage: SyncStage::AwaitingCursor },
                    Some(SyncAction::ReadCursor),
                ),
                _ => (fail(self, SyncError::Inconsistent), None),
            },
            SyncStage::AwaitingCursor => match event {
                SyncEvent::TransportFailure => (fail(self, SyncError::Transport), None),
                SyncEvent::Cursor(None) => plan(self.target, cursor),
                SyncEvent::Cursor(Some(height)) => {
                    if height < cursor {
                        (fail(self, SyncError::Inconsistent), None)
                    } else {
                        account.set_scanned(height);
                        plan(self.target, height)
                    }
                },
                _ => (fail(self, SyncError::Inconsistent), None),
            },
            SyncStage::AwaitingBlocks { end } => match event {
                SyncEvent::TransportFailure => (fail(self, SyncError::Transport), None),
                SyncEvent::Blocks(heights) => {
                    if cursor < end && in_order(&heights, cursor + 1, end) {
                        (
                            SyncRun { target: self.target, stage: SyncStage::AwaitingScan { end } },
                            Some(SyncAction::ScanRange { start: cursor + 1, end }),
                        )
                    } else {
                        (fail(self, SyncError::Inconsistent), None)
                    }
                },
                _ => (fail(self, SyncError::Inconsistent), None),
            },
            SyncStage::AwaitingScan { end } => match event {
                SyncEvent::TransportFailure => (fail(self, SyncError::Transport), None),
                SyncEvent::Scanned { mined } => {
                    if cursor < end {
                        account.set_scanned(end);
                        account.set_mined(&mined);
                        plan(self.target, end)
                    } else {
                        (fail(self, SyncError::Inconsistent), None)
                    }
                },
                _ => (fail(self, SyncError::Inconsistent), None),
            },
        }
    }
}

impl SyncRun {
    /// The run and the cursor after a run of events, fed one after another.
    pub open spec fn after_all(self, cursor: u64, events: Seq<SyncEvent>) -> (SyncRun, u64)
        decreases events.len(),
    {
        if events.len() == 0 {
            (self, cursor)
        } else {
            self.after(cursor, events[0]).0.after_all(
                self.cursor_after(cursor, events[0]),
                events.drop_first(),
            )
        }
    }

    /// What holds of a run and the cursor at every moment of a synchronisation:
    /// a batch asked for lies just above the cursor, is no longer than
    /// `BATCH_SIZE` and ends at the target or below; a run that is done stands
    /// on the target or above.
    pub open spec fn consistent(self, cursor: u64) -> bool {
        match self.stage {
            SyncStage::AwaitingBlocks { end } => cursor < end <= self.target && end - cursor
                <= BATCH_SIZE,
            SyncStage::AwaitingScan { end } => cursor < end <= self.target && end - cursor
                <= BATCH_SIZE,
            SyncStage::Done => cursor >= self.target,
            _ => true,
        }
    }
}

/// One step keeps a run consistent with the cursor.
pub proof fn lemma_step_stays_consistent(run: SyncRun, cursor: u64, event: SyncEvent)
    requires
        run.consistent(cursor),
    ensures
        run.after(cursor, event).0.consistent(run.cursor_after(cursor, event)),
{
}

/// Every run of events keeps a run consistent with the cursor.
pub proof fn lemma_run_stays_consistent(run: SyncRun, cursor: u64, events: Seq<SyncEvent>)
    requires
        run.consistent(cursor),
    ensures
        run.after_all(cursor, events).0.consistent(run.after_all(cursor, events).1),
    decreases events.len(),
{
    if events.len() > 0 {
        lemma_step_stays_consistent(run, cursor, events[0]);
        lemma_run_stays_consistent(
            run.after(cursor, events[0]).0,
            run.cursor_after(cursor, events[0]),
            events.drop_first(),
        );
    }
}

/// The target of a run is the tip observed at its start and never moves after.
pub proof fn lemma_target_is_first_tip(run: SyncRun, cursor: u64, events: Seq<SyncEvent>)
    requires
        !(run.stage is AwaitingTip),
    ensures
        run.after_all(cursor, events).0.target == run.target,
        !(run.after_all(cursor, events).0.stage is AwaitingTip),
    decreases events.len(),
{
    if events.len() > 0 {
        lemma_target_is_first_tip(
            run.after(cursor, events[0]).0,
            run.cursor_after(cursor, events[0]),
            events.drop_first(),
        );
    }
}

/// The scanned cursor never moves down, whatever arrives and however many
/// synchronisations follow one another: each of them is a run of events.
pub proof fn law_cursor_never_decreases(run: SyncRun, cursor: u64, events: Seq<SyncEvent>)
    ensures
        run.after_all(cursor, events).1 >= cursor,
    decreases events.len(),
{
    if events.len() > 0 {
        law_cursor_never_decreases(
            run.after(cursor, events[0]).0,
            run.cursor_after(cursor, events[0]),
            events.drop_first(),
        );
    }
}

/// Blocks reach the store in order and without gaps. A scan is asked for only
/// in answer to blocks that are exactly those from the height above the cursor
/// to the end of the batch, and covers exactly them; blocks in any other order,
/// or with one missing, end the run with `Inconsistent` and leave the cursor
/// where it was; and the cursor moves over a batch only when the store has
/// scanned it.
pub proof fn law_blocks_are_scanned_in_order(run: SyncRun, cursor: u64, event: SyncEvent)
    ensures
        run.after(cursor, event).1 matches Some(SyncAction::ScanRange { start, end }) ==> {
            &&& run.stage == SyncStage::AwaitingBlocks { end }
            &&& start == cursor + 1
            &&& event matches SyncEvent::Blocks(heights) && contiguous(
                heights@,
                cursor + 1,
                end as int,
            )
            &&& run.cursor_after(cursor, event) == cursor
        },
        (run.stage matches SyncStage::AwaitingBlocks { end } && event matches SyncEvent::Blocks(
            heights,
        ) && !contiguous(heights@, cursor + 1, end as int)) ==> {
            &&& run.after(cursor, event) == (run.failed(SyncError::Inconsistent), None::<SyncAction>)
            &&& run.cursor_after(cursor, event) == cursor
        },
        run.cursor_after(cursor, event) != cursor ==> {
            ||| run.stage == SyncStage::AwaitingScan { end: run.cursor_after(cursor, event) }
                && event is Scanned
            ||| run.stage is AwaitingCursor && event == SyncEvent::Cursor(
                Some(run.cursor_after(cursor, event)),
            )
        },
{
}

/// Blocks are asked for just above the cursor and never beyond the target, at
/// most `BATCH_SIZE` at a time. As the cursor starts on the block before the
/// birthday and never moves down, nothing below the birthday is ever asked for.
pub proof fn law_blocks_asked_lie_above_cursor(run: SyncRun, cursor: u64, event: SyncEvent)
    ensures
        run.after(cursor, event).1 matches Some(SyncAction::GetBlockRange { start, end }) ==> {
            &&& start == run.cursor_after(cursor, event) + 1
            &&& start <= end <= run.after(cursor, event).0.target
            &&& end - start < BATCH_SIZE
            &&& run.after(cursor, event).0.stage == SyncStage::AwaitingBlocks { end }
        },
{
}

impl SyncRun {
    /// Whether an event is the answer that a chain index and a store in good
    /// order give to what the run has asked for: the tip, the cursor as the
    /// account knows it or nothing, the blocks of the batch in order, the scan.
    pub open spec fn served_by(self, cursor: u64, event: SyncEvent) -> bool {
        match self.stage {
            SyncStage::AwaitingTip => event is Tip,
            SyncStage::AwaitingCursor => event == SyncEvent::Cursor(None) || event
                == SyncEvent::Cursor(Some(cursor)),
            SyncStage::AwaitingBlocks { end } => event matches SyncEvent::Blocks(heights)
                && contiguous(heights@, cursor + 1, end as int),
            SyncStage::AwaitingScan { .. } => event is Scanned,
            _ => false,
        }
    }

    /// How many answers a run in good order still needs, at most, to be done.
    pub open spec fn remaining(self, cursor: u64) -> int {
        match self.stage {
            SyncStage::AwaitingTip => 2 * (u64::MAX - cursor) + 3,
            SyncStage::AwaitingCursor => if self.target > cursor {
                2 * (self.target - cursor) + 1
            } else {
                1
            },
            SyncStage::AwaitingBlocks { .. } => if self.target > cursor {
                2 * (self.target - cursor)
            } else {
                0
            },
            SyncStage::AwaitingScan { .. } => if self.target > cursor {
                2 * (self.target - cursor) - 1
            } else {
                0
            },
            _ => 0,
        }
    }
}

/// A synchronisation that is served in good order never fails and comes to an
/// end: every such answer keeps the run consistent, leaves it unfailed, and
/// brings it at least one step nearer to the tip. A run that is done this way
/// stands exactly on the tip, unless the cursor was above it from the start.
pub proof fn law_served_sync_makes_progress(run: SyncRun, cursor: u64, event: SyncEvent)
    requires
        run.consistent(cursor),
        run.served_by(cursor, event),
    ensures
        !(run.after(cursor, event).0.stage is Failed),
        run.after(cursor, event).0.consistent(run.cursor_after(cursor, event)),
        0 <= run.after(cursor, event).0.remaining(run.cursor_after(cursor, event))
            < run.remaining(cursor),
        run.after(cursor, event).0.stage is Done ==> run.cursor_after(cursor, event) == if cursor
            >= run.after(cursor, event).0.target {
            cursor
        } else {
            run.after(cursor, event).0.target
        },
{
}

/// A synchronisation that is done stands on the tip that it observed at its
/// start, or above it.
pub proof fn law_completed_sync_reaches_tip(cursor: u64, events: Seq<SyncEvent>)
    requires
        SyncRun::started().after_all(cursor, events).0.stage is Done,
    ensures
        events.len() > 0,
        events[0] is Tip,
        SyncRun::started().after_all(cursor, events).0.target == events[0]->height,
        SyncRun::started().after_all(cursor, events).1 >= events[0]->height,
{
    let started = SyncRun::started();
    lemma_run_stays_consistent(started, cursor, events);
    assert(events.len() > 0);
    let second = started.after(cursor, events[0]).0;
    assert(events[0] is Tip) by {
        if !(events[0] is Tip) {
            assert(second.stage is Failed);
            lemma_ended_run_is_final(second, cursor, events.drop_first());
        }
    }
    lemma_target_is_first_tip(second, cursor, events.drop_first());
}

/// A run that has ended stays as it is, and the cursor with it.
pub proof fn lemma_ended_run_is_final(run: SyncRun, cursor: u64, events: Seq<SyncEvent>)
    requires
        run.is_over(),
    ensures
        run.after_all(cursor, events) == (run, cursor),
    decreases events.len(),
{
    if events.len() > 0 {
        lemma_ended_run_is_final(run, cursor, events.drop_first());
    }
}

/// Synchronising twice with no new block between is a no-op the second time.
/// After a synchronisation that is done, one that observes the same tip, with
/// a store that reports the cursor as it was left or reports nothing, is done
/// as soon as the cursor is known: it asks for no block, fails with no error
/// and leaves the cursor where it was.
pub proof fn law_second_sync_is_a_no_op(
    cursor: u64,
    first: Seq<SyncEvent>,
    reported: Option<u64>,
)
    requires
        SyncRun::started().after_all(cursor, first).0.stage is Done,
        reported is None || reported == Some(SyncRun::started().after_all(cursor, first).1),
    ensures
        ({
            let (done, left) = SyncRun::started().after_all(cursor, first);
            let tip = SyncEvent::Tip { height: done.target };
            let waiting = SyncRun { target: done.target, stage: SyncStage::AwaitingCursor };
            &&& first.len() > 0 && first[0] == tip
            &&& SyncRun::started().after(left, tip) == (waiting, Some(SyncAction::ReadCursor))
            &&& waiting.after(left, SyncEvent::Cursor(reported)) == (
                SyncRun { target: done.target, stage: SyncStage::Done },
                None::<SyncAction>,
            )
            &&& SyncRun::started().after_all(left, seq![tip, SyncEvent::Cursor(reported)]) == (
                SyncRun { target: done.target, stage: SyncStage::Done },
                left,
            )
        }),
{
    let (done, left) = SyncRun::started().after_all(cursor, first);
    law_completed_sync_reaches_tip(cursor, first);
    lemma_run_stays_consistent(SyncRun::started(), cursor, first);
    let second = seq![SyncEvent::Tip { height: done.target }, SyncEvent::Cursor(reported)];
    let waiting = SyncRun { target: done.target, stage: SyncStage::AwaitingCursor };
    let end = waiting.after(left, SyncEvent::Cursor(reported)).0;
    assert(second.drop_first() == seq![SyncEvent::Cursor(reported)]);
    assert(second.drop_first().drop_first() == Seq::<SyncEvent>::empty());
    assert(end.after_all(left, second.drop_first().drop_first()) == (end, left));
    assert(waiting.after_all(left, second.drop_first()) == (end, left));
}

fn fail(run: SyncRun, error: SyncError) -> (failed: SyncRun)
    ensures
        failed == run.failed(error),
{
    SyncRun { target: run.target, stage: SyncStage::Failed(error) }
}

fn plan(target: u64, cursor: u64) -> (next: (SyncRun, Option<SyncAction>))
    ensures
        next == planned(target, cursor),
{
    if cursor >= target {
        (SyncRun { target, stage: SyncStage::Done }, None)
    } else {
        let end: u64 = if target - cursor > BATCH_SIZE {
            cursor + BATCH_SIZE
        } else {
            target
        };
        (
            SyncRun { target, stage: SyncStage::AwaitingBlocks { end } },
            Some(SyncAction::GetBlockRange { start: cursor + 1, end }),
        )
    }
}

/// Tells whether the heights received are exactly those from `first` to
/// `last`, in order.
pub fn in_order(heights: &Vec<u64>, first: u64, last: u64) -> (ok: bool)
    ensures
        ok == contiguous(heights@, first as int, last as int),
{
    if first > last {
        return heights.len() == 0 && first - last == 1;
    }
    let wanted: u64 = last - first;
    if heights.len() == 0 || (heights.len() - 1) as u64 != wanted {
        return false;
    }
    let mut i: usize = 0;
    while i < heights.len()
        invariant
            i <= heights.len(),
            heights.len() - 1 == last - first,
            forall|j: int| 0 <= j < i ==> heights[j] == first + j,
        decreases heights.len() - i,
    {
        if heights[i] != first + i as u64 {
            return false;
        }
        i = i + 1;
    }
    true
}

impl SpendingAccount {
    /// Reads what the chain index answered when asked for its latest block:
    /// the height of the tip, or a transport failure where no answer came.
    pub fn get_latest_block(&self, reply: Option<BlockId>) -> (event: SyncEvent)
        ensures
            event == match reply {
                Some(block) => SyncEvent::Tip { height: block.height },
                None => SyncEvent::TransportFailure,
            },
    {
        match reply {
            Some(block) => SyncEvent::Tip { height: block.height },
            None => SyncEvent::TransportFailure,
        }
    }

    /// Starts a synchronisation: the chain tip is asked for first.
    pub fn sync(&self) -> (started: (SyncRun, Option<SyncAction>))
        ensures
            started == (SyncRun::started(), Some(SyncAction::GetLatestBlock)),
    {
        (SyncRun { target: 0, stage: SyncStage::AwaitingTip }, Some(SyncAction::GetLatestBlock))
    }
}

} // verus!
