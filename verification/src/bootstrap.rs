//! Creating the account: from the seed and a birthday height to an account
//! that the wallet store has imported, anchored on the tree state of the last
//! block before the birthday.

use vstd::prelude::*;
use crate::account::{AccountModel, SpendingAccount};
use crate::error::BootstrapError;
use crate::keys::{viewing_key_encoding, viewing_key_from_seed, ViewingKey, ACCOUNT_INDEX};
use crate::types::AccountId;

verus! {

/// The tree state at the end of a block, as the chain index reports it. The
/// library reads the height; the rest is carried to the store as it came.
#[derive(Clone, Debug, PartialEq, Eq)]
pub struct TreeStateSnapshot {
    pub network: String,
    pub height: u64,
    pub hash: String,
    pub time: u32,
    pub sapling_tree: String,
    pub orchard_tree: String,
    pub ironwood_tree: String,
}

/// Where an account starts to scan: a height, and the tree state of the block
/// just before it.
#[derive(Clone, Debug, PartialEq, Eq)]
pub struct AccountBirthday {
    pub height: u64,
    pub tree_state: TreeStateSnapshot,
}

/// Whether an account can authorize spends or only watch.
#[derive(Clone, Copy, Debug, PartialEq, Eq, Structural)]
pub enum AccountPurpose {
    Spending,
    ViewOnly,
}

/// How far the creation of the account has come.
#[derive(Clone, Debug, PartialEq, Eq)]
pub enum BootstrapStage {
    /// The tree state before the birthday has been asked for.
    AwaitingTreeState,
    /// The import of the viewing key has been asked for.
    AwaitingImport,
    /// The store holds the account.
    Done(AccountId),
    Failed(BootstrapError),
}

/// One creation of an account in flight.
#[derive(Clone, Debug, PartialEq, Eq)]
pub struct Bootstrap {
    pub birthday: u64,
    pub stage: BootstrapStage,
}

/// What came back from the chain index or the store.
#[derive(Clone, Debug, PartialEq, Eq)]
pub enum BootstrapEvent {
    TreeState(TreeStateSnapshot),
    /// The store has imported the account under this identifier.
    Imported(AccountId),
    /// The request could not be served, or was refused.
    Unavailable,
}

/// What the surrounding program is to do next.
#[derive(Clone, Debug, PartialEq, Eq)]
pub enum BootstrapAction {
    FetchTreeState { height: u64 },
    ImportAccount {
        label: String,
        viewing_key: ViewingKey,
        birthday: AccountBirthday,
        purpose: AccountPurpose,
    },
}

/// An action as contracts speak of it.
pub enum BootstrapActionView {
    FetchTreeState { height: u64 },
    ImportAccount {
        label: Seq<char>,
        viewing_key: Seq<char>,
        birthday: AccountBirthday,
        purpose: AccountPurpose,
    },
}

impl View for BootstrapAction {
    type V = BootstrapActionView;

    open spec fn view(&self) -> BootstrapActionView {
        match *self {
            BootstrapAction::FetchTreeState { height } => BootstrapActionView::FetchTreeState {
                height,
            },
            BootstrapAction::ImportAccount {
                label,
                viewing_key,
                birthday,
                purpose,
            } => BootstrapActionView::ImportAccount {
                label: label@,
                viewing_key: viewing_key.encoded@,
                birthday,
                purpose,
            },
        }
    }
}

/// The view of an action that may be absent.
pub open spec fn issued(action: Option<BootstrapAction>) -> Option<BootstrapActionView> {
    match action {
        Some(a) => Some(a@),
        None => None,
    }
}

/// The label under which the store keeps the account.
pub open spec fn account_label() -> Seq<char> {
    "default"@
}

impl AccountModel {
    /// The encoding of the viewing key of the account, where its seed derives
    /// one.
    pub open spec fn viewing_key(self) -> Option<Seq<char>> {
        viewing_key_encoding(self.policy.network, self.seed, ACCOUNT_INDEX)
    }
}

impl Bootstrap {
    /// The creation stopped with `error`.
    pub open spec fn failed(self, error: BootstrapError) -> Bootstrap {
        Bootstrap { stage: BootstrapStage::Failed(error), ..self }
    }

    /// The creation moved on to `stage`.
    pub open spec fn at(self, stage: BootstrapStage) -> Bootstrap {
        Bootstrap { stage, ..self }
    }

    /// Whether a snapshot is the tree state just before the birthday.
    pub open spec fn anchored_by(self, snapshot: TreeStateSnapshot) -> bool {
        self.birthday >= 1 && snapshot.height == self.birthday - 1
    }

    /// The creation as it starts on an account.
    pub open spec fn started(account: AccountModel, birthday: u64) -> Bootstrap {
        Bootstrap {
            birthday,
            stage: if account.account is Some {
                BootstrapStage::Failed(BootstrapError::AccountExists)
            } else if !account.policy.reveal_birthday {
                BootstrapStage::Failed(BootstrapError::BirthdayAnchorFailed)
            } else if account.viewing_key() is None {
                BootstrapStage::Failed(BootstrapError::InvalidPhrase)
            } else {
                BootstrapStage::AwaitingTreeState
            },
        }
    }

    /// The creation after an event.
    pub open spec fn after(self, account: AccountModel, event: BootstrapEvent) -> Bootstrap {
        match self.stage {
            BootstrapStage::AwaitingTreeState => match event {
                BootstrapEvent::TreeState(snapshot) => if !self.anchored_by(snapshot) {
                    self.failed(BootstrapError::BirthdayAnchorFailed)
                } else if account.viewing_key() is None {
                    self.failed(BootstrapError::InvalidPhrase)
                } else {
                    self.at(BootstrapStage::AwaitingImport)
                },
                _ => self.failed(BootstrapError::BirthdayAnchorFailed),
            },
            BootstrapStage::AwaitingImport => match event {
                BootstrapEvent::Imported(id) => if account.account is Some {
                    self.failed(BootstrapError::AccountExists)
                } else if self.birthday == 0 {
                    self.failed(BootstrapError::BirthdayAnchorFailed)
                } else {
                    self.at(BootstrapStage::Done(id))
                },
                _ => self.failed(BootstrapError::AccountExists),
            },
            BootstrapStage::Done(_) => self,
            BootstrapStage::Failed(_) => self,
        }
    }

    /// The account after an event: a completed import is recorded, with the
    /// cursor on the last block before the birthday, and nothing else changes.
    pub open spec fn account_after(self, account: AccountModel, event: BootstrapEvent)
        -> AccountModel {
        match (self.stage, self.after(account, event).stage) {
            (BootstrapStage::AwaitingImport, BootstrapStage::Done(id)) => account.imported(
                id,
                self.birthday,
            ),
            _ => account,
        }
    }

    /// What is asked for in answer to an event, if anything.
    pub open spec fn action_after(self, account: AccountModel, event: BootstrapEvent) -> Option<
        BootstrapActionView,
    > {
        match (self.stage, self.after(account, event).stage, event) {
            (
                BootstrapStage::AwaitingTreeState,
                BootstrapStage::AwaitingImport,
                BootstrapEvent::TreeState(snapshot),
            ) => Some(
                BootstrapActionView::ImportAccount {
                    label: account_label(),
                    viewing_key: account.viewing_key().unwrap(),
                    birthday: AccountBirthday { height: self.birthday, tree_state: snapshot },
                    purpose: AccountPurpose::Spending,
                },
            ),
            _ => None,
        }
    }

    /// Whether the creation has ended.
    pub open spec fn is_over(self) -> bool {
        self.stage is Done || self.stage is Failed
    }

    /// What the creation has come to, once it has ended.
    pub open spec fn outcome_value(self) -> Option<Result<AccountId, BootstrapError>> {
        match self.stage {
            BootstrapStage::Done(id) => Some(Ok(id)),
            BootstrapStage::Failed(error) => Some(Err(error)),
            _ => None,
        }
    }

    /// What the creation has come to, or `None` while it is in flight.
    pub fn outcome(&self) -> (outcome: Option<Result<AccountId, BootstrapError>>)
        ensures
            outcome == self.outcome_value(),
    {
        match self.stage {
            BootstrapStage::Done(id) => Some(Ok(id)),
            BootstrapStage::Failed(error) => Some(Err(error)),
            _ => None,
        }
    }

    /// Takes the creation one step on: interprets what came back and says what
    /// to ask for next. `None` means that the creation has ended.
    pub fn step(self, account: &mut SpendingAccount, event: BootstrapEvent) -> (next: (
        Bootstrap,
        Option<BootstrapAction>,
    ))
        ensures
            next.0 == self.after(old(account)@, event),
            final(account)@ == self.account_after(old(account)@, event),
            issued(next.1) == self.action_after(old(account)@, event),
    {
        let Bootstrap { birthday, stage } = self;
        let (stage, action): (BootstrapStage, Option<BootstrapAction>) = match stage {
            BootstrapStage::AwaitingTreeState => match event {
                BootstrapEvent::TreeState(snapshot) => {
                    if birthday == 0 || snapshot.height != birthday - 1 {
                        (BootstrapStage::Failed(BootstrapError::BirthdayAnchorFailed), None)
                    } else {
                        match viewing_key_from_seed(account.policy().network, account.seed(), ACCOUNT_INDEX) {
                            Some(encoded) => (
                                BootstrapStage::AwaitingImport,
                                Some(
                                    BootstrapAction::ImportAccount {
                                        label: "default".to_owned(),
                                        viewing_key: ViewingKey { encoded },
                                        birthday: AccountBirthday {
                                            height: birthday,
                                            tree_state: snapshot,
                                        },
                                        purpose: AccountPurpose::Spending,
                                    },
                                ),
                            ),
                            None => (BootstrapStage::Failed(BootstrapError::InvalidPhrase), None),
                        }
                    }
                },
                _ => (BootstrapStage::Failed(BootstrapError::BirthdayAnchorFailed), None),
            },
            BootstrapStage::AwaitingImport => match event {
                BootstrapEvent::Imported(id) => {
                    if account.account_id().is_some() {
                        (BootstrapStage::Failed(BootstrapError::AccountExists), None)
                    } else if birthday == 0 {
                        (BootstrapStage::Failed(BootstrapError::BirthdayAnchorFailed), None)
                    } else {
                        account.set_imported(id, birthday);
                        (BootstrapStage::Done(id), None)
                    }
                },
                _ => (BootstrapStage::Failed(BootstrapError::AccountExists), None),
            },
            BootstrapStage::Done(id) => (BootstrapStage::Done(id), None),
            BootstrapStage::Failed(error) => (BootstrapStage::Failed(error), None),
        };
        (Bootstrap { birthday, stage }, action)
    }
}

/// For every seed that derives a key and every birthday of at least one, the
/// creation of an account that does not exist yet, served with the tree state
/// of the block before the birthday and with the store's identifier, ends with
/// the account imported and the cursor on the block before the birthday: no
/// block has been scanned, and none below the birthday ever will be.
pub proof fn law_bootstrap_anchors_the_account(
    account: AccountModel,
    birthday: u64,
    snapshot: TreeStateSnapshot,
    id: AccountId,
)
    requires
        birthday >= 1,
        account.account is None,
        account.policy.reveal_birthday,
        account.viewing_key() is Some,
        snapshot.height == birthday - 1,
    ensures
        ({
            let started = Bootstrap::started(account, birthday);
            let anchored = started.after(account, BootstrapEvent::TreeState(snapshot));
            let imported = anchored.after(account, BootstrapEvent::Imported(id));
            &&& started.stage is AwaitingTreeState
            &&& anchored.stage is AwaitingImport
            &&& started.account_after(account, BootstrapEvent::TreeState(snapshot)) == account
            &&& imported.stage == BootstrapStage::Done(id)
            &&& anchored.account_after(account, BootstrapEvent::Imported(id)) == account.imported(
                id,
                birthday,
            )
            &&& account.imported(id, birthday).scanned == birthday - 1
        }),
{
}

impl SpendingAccount {
    /// Starts the creation of the account with the given birthday height.
    ///
    /// Where the account exists already the creation ends at once with
    /// `AccountExists`; where the policy keeps the birthday from the chain
    /// index, with `BirthdayAnchorFailed`; where the seed derives no key, with
    /// `InvalidPhrase`. Else the tree state of the block before the birthday is
    /// asked for.
    pub fn init(&self, birthday: u64) -> (started: (Bootstrap, Option<BootstrapAction>))
        requires
            birthday >= 1,
        ensures
            started.0 == Bootstrap::started(self@, birthday),
            issued(started.1) == if started.0.stage is AwaitingTreeState {
                Some(BootstrapActionView::FetchTreeState { height: (birthday - 1) as u64 })
            } else {
                None
            },
    {
        if self.account_id().is_some() {
            (
                Bootstrap {
                    birthday,
                    stage: BootstrapStage::Failed(BootstrapError::AccountExists),
                },
                None,
            )
        } else if !self.policy().reveal_birthday {
            (
                Bootstrap {
                    birthday,
                    stage: BootstrapStage::Failed(BootstrapError::BirthdayAnchorFailed),
                },
                None,
            )
        } else if viewing_key_from_seed(self.policy().network, self.seed(), ACCOUNT_INDEX).is_none() {
            (
                Bootstrap {
                    birthday,
                    stage: BootstrapStage::Failed(BootstrapError::InvalidPhrase),
                },
                None,
            )
        } else {
            (
                Bootstrap { birthday, stage: BootstrapStage::AwaitingTreeState },
                Some(BootstrapAction::FetchTreeState { height: birthday - 1 }),
            )
        }
    }
}

} // verus!
