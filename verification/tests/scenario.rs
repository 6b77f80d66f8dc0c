use wallet_core::account::{FeeRule, Pool, SpendingAccount};
use wallet_core::balance::{BalanceEvent, PlainBalance, PoolBalance, WalletSummary};
use wallet_core::bootstrap::{BootstrapAction, BootstrapEvent, BootstrapStage, TreeStateSnapshot};
use wallet_core::error::TransferError;
use wallet_core::sync::{SyncAction, SyncEvent, SyncStage};
use wallet_core::transfer::{TransferAction, TransferEvent, TransferProposal, TransferStage};
use wallet_core::types::{AccountId, TransactionId};

const PHRASE: &str =
    "abandon abandon abandon abandon abandon abandon abandon abandon abandon abandon abandon about";

const DESTINATION: &str = "tmC3F49jzP8ocdkGkgSgTrMLCZPRD6sKpDK";

/// An account born at height 100 and synchronised to a tip of 150.
fn synced_account() -> SpendingAccount {
    let mut account = SpendingAccount::new(PHRASE).unwrap();
    let (mut bootstrap, mut action) = account.init(100);
    while let Some(asked) = action {
        let event = match asked {
            BootstrapAction::FetchTreeState { height } => BootstrapEvent::TreeState(TreeStateSnapshot {
                network: String::from("test"),
                height,
                hash: String::new(),
                time: 0,
                sapling_tree: String::new(),
                orchard_tree: String::new(),
                ironwood_tree: String::new(),
            }),
            BootstrapAction::ImportAccount { .. } => BootstrapEvent::Imported(AccountId { raw: 1 }),
        };
        let next = bootstrap.step(&mut account, event);
        bootstrap = next.0;
        action = next.1;
    }
    assert_eq!(bootstrap.stage, BootstrapStage::Done(AccountId { raw: 1 }));

    let (mut run, mut action) = account.sync();
    while let Some(asked) = action {
        let event = match asked {
            SyncAction::GetLatestBlock => SyncEvent::Tip { height: 150 },
            SyncAction::ReadCursor => SyncEvent::Cursor(None),
            SyncAction::GetBlockRange { start, end } => SyncEvent::Blocks((start..=end).collect()),
            SyncAction::ScanRange { .. } => SyncEvent::Scanned { mined: vec![] },
        };
        let next = run.step(&mut account, event);
        run = next.0;
        action = next.1;
    }
    assert_eq!(run.stage, SyncStage::Done);
    account
}

fn summary(orchard: u64) -> WalletSummary {
    WalletSummary {
        scanned_height: 150,
        min_confirmations: 1,
        balances: vec![
            PoolBalance { pool: Pool::Sapling, spendable: 0 },
            PoolBalance { pool: Pool::Orchard, spendable: orchard },
        ],
    }
}

/// Serves a transfer of 1000 from a balance of 5000 as a faithful store would,
/// with a chain index that answers a submission with `code` and `message`.
fn transfer_answered_with(code: i32, message: &str) -> (SpendingAccount, TransferStage) {
    let mut account = synced_account();
    let plan = TransferProposal {
        amount: 1000,
        pool: Pool::Orchard,
        fee_rule: FeeRule::Zip317,
        fee: 100,
        inputs: vec![5000],
        scanned_height: 150,
    };
    assert!(plan.input_total() >= 1000 + 100);
    assert_eq!(plan.change(), Some(3900));
    let id = TransactionId { bytes: [42; 32] };
    let (mut transfer, mut action) = account.transfer(1000, DESTINATION);
    while let Some(asked) = action {
        let event = match asked {
            TransferAction::ReadSummary { .. } => TransferEvent::Summary(Some(summary(5000))),
            TransferAction::BuildProposal { .. } => TransferEvent::Proposal(Some(plan.clone())),
            TransferAction::Authorize { .. } => TransferEvent::Signed(vec![id]),
            TransferAction::FetchTransaction { .. } => TransferEvent::RawTransaction(Some(vec![7; 90])),
            TransferAction::Submit { .. } => {
                TransferEvent::SubmitReply { code, message: String::from(message) }
            }
        };
        let next = transfer.step(&mut account, event);
        transfer = next.0;
        action = next.1;
    }
    (account, transfer.stage)
}

#[test]
fn bootstrap_and_sync_leave_the_cursor_on_the_tip() {
    let account = synced_account();
    assert_eq!(account.birthday(), 100);
    assert_eq!(account.scanned_height(), 150);
}

#[test]
fn a_new_account_holds_nothing_after_its_first_sync() {
    let account = synced_account();
    let (query, _) = account.get_transparent_balance();
    let (query, _) = query.step(&account, BalanceEvent::Accounts(vec![AccountId { raw: 1 }]));
    let (query, _) = query.step(&account, BalanceEvent::Addresses(vec![]));
    let total = account.balance(1, Some(&summary(0)), query.outcome().unwrap()).unwrap();
    assert_eq!(total.sapling, 0);
    assert_eq!(total.orchard, 0);
    assert_eq!(total.plain, PlainBalance::Known(0));
    assert_eq!(total.total, 0);
}

#[test]
fn an_accepted_transfer_yields_its_transaction_id() {
    let (account, stage) = transfer_answered_with(0, "");
    assert_eq!(stage, TransferStage::Confirmed(TransactionId { bytes: [42; 32] }));
    assert_eq!(account.last_transaction(), Some(TransactionId { bytes: [42; 32] }));
}

#[test]
fn an_accepted_transfer_is_pending_until_a_scan_finds_it() {
    let (mut account, _) = transfer_answered_with(0, "");
    let id = TransactionId { bytes: [42; 32] };
    assert!(account.is_pending());

    let feeds = [(151u64, vec![TransactionId { bytes: [9; 32] }]), (152u64, vec![id])];
    for (tip, found) in feeds {
        let (mut run, mut action) = account.sync();
        while let Some(asked) = action {
            let event = match asked {
                SyncAction::GetLatestBlock => SyncEvent::Tip { height: tip },
                SyncAction::ReadCursor => SyncEvent::Cursor(None),
                SyncAction::GetBlockRange { start, end } => SyncEvent::Blocks((start..=end).collect()),
                SyncAction::ScanRange { .. } => SyncEvent::Scanned { mined: found.clone() },
            };
            let next = run.step(&mut account, event);
            run = next.0;
            action = next.1;
        }
        assert_eq!(run.stage, SyncStage::Done);
        assert_eq!(account.is_pending(), tip < 152);
        assert_eq!(account.last_transaction(), Some(id));
    }
    assert_eq!(account.scanned_height(), 152);
}

#[test]
fn a_rejected_transfer_yields_the_rejection() {
    let (account, stage) = transfer_answered_with(1, "insufficient fee");
    assert_eq!(
        stage,
        TransferStage::Failed(TransferError::Rejected {
            code: 1,
            message: String::from("insufficient fee"),
        })
    );
    assert_eq!(account.last_transaction(), None);
}
