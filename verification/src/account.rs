//! The account that the orchestrator drives.

use vstd::prelude::*;
use crate::error::BootstrapError;
use crate::keys::{phrase_seed, seed_from_phrase};
use crate::types::{AccountId, Network, TransactionId};

verus! {

/// Which pool the inputs of a transfer are taken from.
#[derive(Clone, Copy, Debug, PartialEq, Eq, Structural)]
pub enum Pool {
    Sapling,
    Orchard,
    Transparent,
}

/// The version of the rule by which the fee of a transfer is computed.
#[derive(Clone, Copy, Debug, PartialEq, Eq, Structural)]
pub enum FeeRule {
    Zip317,
}

/// What the surrounding program chooses once for all operations.
#[derive(Clone, Copy, Debug, PartialEq, Eq, Structural)]
pub struct Policy {
    /// The network that the account lives on.
    pub network: Network,
    /// The pool that transfers spend from.
    pub source_pool: Pool,
    /// The fee rule that proposals are computed under.
    pub fee_rule: FeeRule,
    /// How many confirmations a note needs before it counts as spendable.
    pub min_confirmations: u32,
    /// Whether the chain index may be asked for the tree state before the
    /// birthday. Asking tells it roughly when the account was born; without
    /// the tree state no account can be created.
    pub reveal_birthday: bool,
}

/// What an account is, as contracts speak of it.
pub struct AccountModel {
    /// The 64 bytes that every key of the account derives from.
    pub seed: Seq<u8>,
    pub policy: Policy,
    /// The store's identifier, once the account has been imported.
    pub account: Option<AccountId>,
    /// The first height the account needs to scan; meaningful once imported.
    pub birthday: u64,
    /// The highest height scanned: the cursor that synchronisation advances.
    pub scanned: u64,
    /// The transaction that the chain index accepted last.
    pub last_transaction: Option<TransactionId>,
    /// Whether that transaction is still waiting to be found in a block.
    pub pending: bool,
}

/// One account: its seed, which never leaves this value, and what the
/// orchestrator has learnt of the account's state.
pub struct SpendingAccount {
    seed: [u8; 64],
    policy: Policy,
    account: Option<AccountId>,
    birthday: u64,
    scanned: u64,
    last_transaction: Option<TransactionId>,
    pending: bool,
}

impl View for SpendingAccount {
    type V = AccountModel;

    closed spec fn view(&self) -> AccountModel {
        AccountModel {
            seed: self.seed@,
            policy: self.policy,
            account: self.account,
            birthday: self.birthday,
            scanned: self.scanned,
            last_transaction: self.last_transaction,
            pending: self.pending,
        }
    }
}

impl Policy {
    /// On the test network, spend from Orchard under ZIP 317, count a note
    /// after one confirmation, and let the chain index learn the birthday.
    pub open spec fn standard() -> Policy {
        Policy {
            network: Network::Test,
            source_pool: Pool::Orchard,
            fee_rule: FeeRule::Zip317,
            min_confirmations: 1,
            reveal_birthday: true,
        }
    }
}

impl AccountModel {
    /// The account that a seed starts as: not imported, nothing scanned.
    pub open spec fn fresh(seed: Seq<u8>) -> AccountModel {
        AccountModel {
            seed,
            policy: Policy::standard(),
            account: None,
            birthday: 0,
            scanned: 0,
            last_transaction: None,
            pending: false,
        }
    }

    /// The account once the store has imported it under `id`: the cursor stands
    /// on the last block before the birthday.
    pub open spec fn imported(self, id: AccountId, birthday: u64) -> AccountModel {
        AccountModel {
            account: Some(id),
            birthday,
            scanned: (birthday - 1) as u64,
            ..self
        }
    }

    /// The account with its cursor on `height`.
    pub open spec fn scanned_to(self, height: u64) -> AccountModel {
        AccountModel { scanned: height, ..self }
    }

    /// The account after the chain index has accepted transaction `id`: the
    /// transaction is pending.
    pub open spec fn with_transaction(self, id: TransactionId) -> AccountModel {
        AccountModel { last_transaction: Some(id), pending: true, ..self }
    }

    /// Whether the pending transaction of the account is among `mined`.
    pub open spec fn settled_by(self, mined: Seq<TransactionId>) -> bool {
        self.pending && (self.last_transaction matches Some(id) && mined.contains(id))
    }

    /// The account after a scan has found the transactions `mined` in blocks:
    /// a pending transaction among them is pending no longer.
    pub open spec fn mined(self, mined: Seq<TransactionId>) -> AccountModel {
        if self.settled_by(mined) {
            AccountModel { pending: false, ..self }
        } else {
            self
        }
    }
}

impl SpendingAccount {
    /// Expands a recovery phrase to its seed, with the empty passphrase, and
    /// starts an account on it.
    ///
    /// Fails with `InvalidPhrase`, and only with it, exactly where the phrase is
    /// no valid mnemonic.
    pub fn new(seed_phrase: &str) -> (made: Result<SpendingAccount, BootstrapError>)
        ensures
            match made {
                Ok(account) => phrase_seed(seed_phrase@, ""@) == Some(account@.seed)
                    && account@ == AccountModel::fresh(account@.seed),
                Err(e) => phrase_seed(seed_phrase@, ""@) is None && e
                    == BootstrapError::InvalidPhrase,
            },
    {
        match seed_from_phrase(seed_phrase, "") {
            Some(seed) => Ok(
                SpendingAccount {
                    seed,
                    policy: Policy {
                        network: Network::Test,
                        source_pool: Pool::Orchard,
                        fee_rule: FeeRule::Zip317,
                        min_confirmations: 1,
                        reveal_birthday: true,
                    },
                    account: None,
                    birthday: 0,
                    scanned: 0,
                    last_transaction: None,
                    pending: false,
                },
            ),
            None => Err(BootstrapError::InvalidPhrase),
        }
    }

    /// The same account under another policy.
    pub fn with_policy(self, policy: Policy) -> (account: SpendingAccount)
        ensures
            account@ == (AccountModel { policy, ..self@ }),
    {
        SpendingAccount { policy, ..self }
    }

    /// The policy in force.
    pub fn policy(&self) -> (policy: Policy)
        ensures
            policy == self@.policy,
    {
        self.policy
    }

    /// The store's identifier of the account, once imported.
    pub fn account_id(&self) -> (id: Option<AccountId>)
        ensures
            id == self@.account,
    {
        self.account
    }

    /// The birthday height; meaningful once the account is imported.
    pub fn birthday(&self) -> (height: u64)
        ensures
            height == self@.birthday,
    {
        self.birthday
    }

    /// The highest height scanned.
    pub fn scanned_height(&self) -> (height: u64)
        ensures
            height == self@.scanned,
    {
        self.scanned
    }

    /// The transaction that the chain index accepted last.
    pub fn last_transaction(&self) -> (id: Option<TransactionId>)
        ensures
            id == self@.last_transaction,
    {
        self.last_transaction
    }

    /// Whether that transaction is still waiting to be found in a block.
    pub fn is_pending(&self) -> (pending: bool)
        ensures
            pending == self@.pending,
    {
        self.pending
    }

    pub(crate) fn seed(&self) -> (seed: &[u8; 64])
        ensures
            seed@ == self@.seed,
    {
        &self.seed
    }

    pub(crate) fn set_imported(&mut self, id: AccountId, birthday: u64)
        requires
            birthday >= 1,
        ensures
            final(self)@ == old(self)@.imported(id, birthday),
    {
        self.account = Some(id);
        self.birthday = birthday;
        self.scanned = birthday - 1;
    }

    pub(crate) fn set_scanned(&mut self, height: u64)
        ensures
            final(self)@ == old(self)@.scanned_to(height),
    {
        self.scanned = height;
    }

    pub(crate) fn set_last_transaction(&mut self, id: TransactionId)
        ensures
            final(self)@ == old(self)@.with_transaction(id),
    {
        self.last_transaction = Some(id);
        self.pending = true;
    }

    pub(crate) fn set_mined(&mut self, mined: &Vec<TransactionId>)
        ensures
            final(self)@ == old(self)@.mined(mined@),
    {
        if self.pending {
            match self.last_transaction {
                Some(id) => {
                    if id.is_among(mined) {
                        self.pending = false;
                    }
                },
                None => {},
            }
        }
    }
}

} // verus!
