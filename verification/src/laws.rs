//! What holds across operations.

use vstd::prelude::*;
use crate::account::AccountModel;
use crate::bootstrap::{Bootstrap, BootstrapEvent, BootstrapStage};
use crate::sync::{batch_end, SyncAction, SyncEvent, SyncRun, SyncStage};
use crate::types::AccountId;

verus! {

/// The first synchronisation of a new account starts at its birthday. After a
/// creation that ended well, with a store that has scanned nothing yet, a tip
/// at the birthday or above makes the run ask for the blocks from the birthday
/// on; a tip below the birthday ends the run at once, with no block asked for.
/// Either way no block below the birthday is fetched or scanned.
pub proof fn law_first_sync_starts_at_birthday(
    account: AccountModel,
    creation: Bootstrap,
    id: AccountId,
    tip: u64,
)
    requires
        creation.stage is AwaitingImport,
        creation.after(account, BootstrapEvent::Imported(id)).stage == BootstrapStage::Done(id),
    ensures
        ({
            let born = creation.account_after(account, BootstrapEvent::Imported(id));
            let waiting = SyncRun::started().after(born.scanned, SyncEvent::Tip { height: tip }).0;
            let (next, action) = waiting.after(born.scanned, SyncEvent::Cursor(None));
            &&& born.birthday == creation.birthday
            &&& born.scanned == born.birthday - 1
            &&& waiting.cursor_after(born.scanned, SyncEvent::Cursor(None)) == born.scanned
            &&& tip >= born.birthday ==> action == Some(
                SyncAction::GetBlockRange {
                    start: born.birthday,
                    end: batch_end(born.scanned, tip),
                },
            ) && batch_end(born.scanned, tip) >= born.birthday
            &&& tip < born.birthday ==> action is None && next.stage == SyncStage::Done
        }),
{
}

/// A transaction that the chain index has accepted stays pending until a scan
/// finds it in a block. Synchronising never forgets the transaction and never
/// makes one pending; it settles the pending one only when the store, having
/// scanned a batch, reports it among the transactions found.
pub proof fn law_accepted_transaction_is_pending_until_mined(
    run: SyncRun,
    account: AccountModel,
    event: SyncEvent,
)
    ensures
        ({
            let next = run.account_after(account, event);
            &&& next.last_transaction == account.last_transaction
            &&& next.pending ==> account.pending
            &&& account.pending && !next.pending ==> run.stage is AwaitingScan && (
            event matches SyncEvent::Scanned { mined } && account.settled_by(mined@))
        }),
{
}

} // verus!
