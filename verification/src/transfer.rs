//! Sending value: from a destination and an amount to a transaction that the
//! chain index has accepted.
//!
//! A transfer moves through `Proposed`, `Authorized` and `Broadcast` to
//! `Confirmed`, or stops in `Failed`. The store selects the inputs and signs;
//! the chain index receives the bytes. This module decides what is asked of
//! them, in which order, and what their answers mean.

use vstd::prelude::*;
use crate::account::{AccountModel, FeeRule, Pool, SpendingAccount};
use crate::address::{decodes_to_destination, is_destination};
use crate::amount::{is_amount, MAX_MONEY};
use crate::balance::{spendable_in, spendable_total, lemma_spendable_in_le_total, WalletSummary};
use crate::error::TransferError;
use crate::keys::{spending_key_encoding, spending_key_from_seed, SpendingKey, ACCOUNT_INDEX};
use crate::types::TransactionId;

verus! {

/// A plan that the wallet store has computed for a transfer: the notes it
/// would spend and the fee it would pay, as of a scanned height.
#[derive(Clone, Debug, PartialEq, Eq)]
pub struct TransferProposal {
    /// The amount that reaches the destination.
    pub amount: u64,
    /// The pool that the inputs are taken from.
    pub pool: Pool,
    /// The rule that the fee was computed under.
    pub fee_rule: FeeRule,
    pub fee: u64,
    /// The values of the selected notes.
    pub inputs: Vec<u64>,
    /// The scanned height of the note state that the plan was computed from.
    pub scanned_height: u64,
}

/// How far a transfer has come.
#[derive(Clone, Debug, PartialEq, Eq)]
pub enum TransferStage {
    /// The spendable balance has been asked for.
    AwaitingSummary,
    /// A proposal has been asked for.
    AwaitingProposal,
    /// A proposal is accepted and its authorization has been asked for.
    Proposed(TransferProposal),
    /// The transaction is signed and its bytes have been asked for.
    Authorized(TransactionId),
    /// The bytes have been handed to the chain index.
    Broadcast(TransactionId),
    /// The chain index has confirmed that it accepted the transaction. The
    /// transaction is pending until a later scan finds it in a block.
    Confirmed(TransactionId),
    /// The transfer has ended without a transaction on the chain.
    Failed(TransferError),
}

/// One transfer in flight.
#[derive(Clone, Debug, PartialEq, Eq)]
pub struct Transfer {
    pub amount: u64,
    pub destination: String,
    pub pool: Pool,
    pub fee_rule: FeeRule,
    pub min_confirmations: u32,
    pub stage: TransferStage,
}

/// What came back from the store or the chain index.
#[derive(Clone, Debug, PartialEq, Eq)]
pub enum TransferEvent {
    /// The store's summary, or `None` where it has none.
    Summary(Option<WalletSummary>),
    /// The store's proposal, or `None` where it could select no inputs.
    Proposal(Option<TransferProposal>),
    /// The transactions that the store has signed and proved.
    Signed(Vec<TransactionId>),
    /// The bytes of the transaction asked for, or `None` where the store holds none.
    RawTransaction(Option<Vec<u8>>),
    /// The answer of the chain index to a submission.
    SubmitReply { code: i32, message: String },
    /// The request could not be served.
    Unavailable,
}

/// What the surrounding program is to do next.
#[derive(Clone, Debug, PartialEq, Eq)]
pub enum TransferAction {
    ReadSummary { min_confirmations: u32 },
    BuildProposal {
        destination: String,
        amount: u64,
        pool: Pool,
        fee_rule: FeeRule,
        min_confirmations: u32,
    },
    /// Sign and prove the proposal delivered last, with this spending key.
    Authorize { spending_key: SpendingKey },
    FetchTransaction { id: TransactionId },
    Submit { raw: Vec<u8> },
}

/// An action as contracts speak of it.
pub enum TransferActionView {
    ReadSummary { min_confirmations: u32 },
    BuildProposal {
        destination: Seq<char>,
        amount: u64,
        pool: Pool,
        fee_rule: FeeRule,
        min_confirmations: u32,
    },
    Authorize { spending_key: Seq<u8> },
    FetchTransaction { id: TransactionId },
    Submit { raw: Seq<u8> },
}

impl View for TransferAction {
    type V = TransferActionView;

    open spec fn view(&self) -> TransferActionView {
        match *self {
            TransferAction::ReadSummary { min_confirmations } => TransferActionView::ReadSummary {
                min_confirmations,
            },
            TransferAction::BuildProposal {
                destination,
                amount,
                pool,
                fee_rule,
                min_confirmations,
            } => TransferActionView::BuildProposal {
                destination: destination@,
                amount,
                pool,
                fee_rule,
                min_confirmations,
            },
            TransferAction::Authorize { spending_key } => TransferActionView::Authorize {
                spending_key: spending_key.bytes@,
            },
            TransferAction::FetchTransaction { id } => TransferActionView::FetchTransaction { id },
            TransferAction::Submit { raw } => TransferActionView::Submit { raw: raw@ },
        }
    }
}

/// The view of an action that may be absent.
pub open spec fn issued(action: Option<TransferAction>) -> Option<TransferActionView> {
    match action {
        Some(a) => Some(a@),
        None => None,
    }
}

/// The sum of the values of some notes.
pub open spec fn input_total(inputs: Seq<u64>) -> nat
    decreases inputs.len(),
{
    if inputs.len() == 0 {
        0
    } else {
        input_total(inputs.drop_last()) + inputs.last() as nat
    }
}

/// A sum of notes is at most as many times the largest value of a note.
pub proof fn lemma_input_total_bound(inputs: Seq<u64>)
    ensures
        input_total(inputs) <= inputs.len() * u64::MAX,
    decreases inputs.len(),
{
    if inputs.len() > 0 {
        lemma_input_total_bound(inputs.drop_last());
        assert((inputs.len() - 1) * u64::MAX + u64::MAX == inputs.len() * u64::MAX)
            by (nonlinear_arith);
    }
}

impl TransferProposal {
    /// Whether the inputs cover the amount and the fee.
    pub open spec fn funded(&self) -> bool {
        input_total(self.inputs@) >= self.amount + self.fee
    }

    /// What flows back to the account: the inputs less the amount and the fee.
    pub open spec fn change_value(&self) -> int {
        input_total(self.inputs@) - self.amount - self.fee
    }

    /// The sum of the selected notes.
    pub fn input_total(&self) -> (total: u128)
        ensures
            total == input_total(self.inputs@),
    {
        let mut total: u128 = 0;
        let mut i: usize = 0;
        while i < self.inputs.len()
            invariant
                i <= self.inputs.len(),
                total == input_total(self.inputs@.take(i as int)),
            decreases self.inputs.len() - i,
        {
            proof {
                let next = self.inputs@.take(i + 1);
                assert(next.drop_last() == self.inputs@.take(i as int));
                assert(next.last() == self.inputs@[i as int]);
                lemma_input_total_bound(next);
                assert(next.len() * u64::MAX <= usize::MAX * u64::MAX) by (nonlinear_arith)
                    requires
                        next.len() <= usize::MAX,
                ;
                assert(usize::MAX * u64::MAX <= u128::MAX) by (nonlinear_arith)
                    requires
                        usize::MAX <= u64::MAX,
                ;
            }
            total = total + self.inputs[i] as u128;
            i = i + 1;
        }
        proof {
            assert(self.inputs@.take(i as int) == self.inputs@);
        }
        total
    }

    /// The change that the proposal returns to the account, or `None` where the
    /// inputs do not cover the amount and the fee.
    pub fn change(&self) -> (change: Option<u128>)
        ensures
            change is Some == self.funded(),
            change matches Some(c) ==> c == self.change_value(),
    {
        let total: u128 = self.input_total();
        let needed: u128 = self.amount as u128 + self.fee as u128;
        if total >= needed {
            Some(total - needed)
        } else {
            None
        }
    }
}

impl AccountModel {
    /// The encoding of the spending key of the account, where its seed derives
    /// one.
    pub open spec fn spending_key(self) -> Option<Seq<u8>> {
        spending_key_encoding(self.policy.network, self.seed, ACCOUNT_INDEX)
    }
}

impl Transfer {
    /// The transfer stopped with `error`.
    pub open spec fn failed(self, error: TransferError) -> Transfer {
        Transfer { stage: TransferStage::Failed(error), ..self }
    }

    /// The transfer moved on to `stage`.
    pub open spec fn at(self, stage: TransferStage) -> Transfer {
        Transfer { stage, ..self }
    }

    /// Whether a summary shows the funds for this transfer: it counts by the
    /// transfer's confirmation policy, and the source pool holds the amount.
    pub open spec fn covered_by(self, summary: WalletSummary) -> bool {
        &&& self.amount <= MAX_MONEY
        &&& summary.min_confirmations == self.min_confirmations
        &&& self.amount <= spendable_in(summary.balances@, self.pool)
    }

    /// Whether a proposal is the plan for this transfer, computed from the note
    /// state as it stands at `scanned`. One that is not is stale.
    pub open spec fn answered_by(self, proposal: TransferProposal, scanned: u64) -> bool {
        &&& proposal.amount == self.amount
        &&& proposal.pool == self.pool
        &&& proposal.fee_rule == self.fee_rule
        &&& proposal.scanned_height == scanned
    }

    /// The request for a proposal for this transfer.
    pub open spec fn proposal_request(self) -> TransferActionView {
        TransferActionView::BuildProposal {
            destination: self.destination@,
            amount: self.amount,
            pool: self.pool,
            fee_rule: self.fee_rule,
            min_confirmations: self.min_confirmations,
        }
    }

    /// The transfer after an event.
    pub open spec fn after(self, account: AccountModel, event: TransferEvent) -> Transfer {
        match self.stage {
            TransferStage::AwaitingSummary => match event {
                TransferEvent::Summary(Some(summary)) => if self.covered_by(summary) {
                    self.at(TransferStage::AwaitingProposal)
                } else {
                    self.failed(TransferError::InsufficientFunds)
                },
                _ => self.failed(TransferError::InsufficientFunds),
            },
            TransferStage::AwaitingProposal => match event {
                TransferEvent::Proposal(Some(proposal)) => if !self.answered_by(
                    proposal,
                    account.scanned,
                ) {
                    self
                } else if !proposal.funded() {
                    self.failed(TransferError::InsufficientFunds)
                } else if account.spending_key() is None {
                    self.failed(TransferError::AuthorizationFailed)
                } else {
                    self.at(TransferStage::Proposed(proposal))
                },
                _ => self.failed(TransferError::InsufficientFunds),
            },
            TransferStage::Proposed(_) => match event {
                TransferEvent::Signed(ids) => if ids@.len() > 0 {
                    self.at(TransferStage::Authorized(ids@[0]))
                } else {
                    self.failed(TransferError::AuthorizationFailed)
                },
                _ => self.failed(TransferError::AuthorizationFailed),
            },
            TransferStage::Authorized(id) => match event {
                TransferEvent::RawTransaction(Some(_)) => self.at(TransferStage::Broadcast(id)),
                _ => self.failed(TransferError::AuthorizationFailed),
            },
            TransferStage::Broadcast(id) => match event {
                TransferEvent::SubmitReply { code, message } => if code == 0 {
                    self.at(TransferStage::Confirmed(id))
                } else {
                    self.failed(TransferError::Rejected { code, message })
                },
                _ => self.failed(TransferError::SubmissionUncertain),
            },
            TransferStage::Confirmed(_) => self,
            TransferStage::Failed(_) => self,
        }
    }

    /// The account after an event: an accepted submission is recorded, and
    /// nothing else changes.
    pub open spec fn account_after(self, account: AccountModel, event: TransferEvent)
        -> AccountModel {
        match (self.stage, self.after(account, event).stage) {
            (TransferStage::Broadcast(_), TransferStage::Confirmed(id)) => account.with_transaction(
                id,
            ),
            _ => account,
        }
    }

    /// What is asked for in answer to an event, if anything.
    pub open spec fn action_after(self, account: AccountModel, event: TransferEvent) -> Option<
        TransferActionView,
    > {
        match (self.stage, self.after(account, event).stage, event) {
            (_, TransferStage::AwaitingProposal, _) => Some(self.proposal_request()),
            (
                TransferStage::AwaitingProposal,
                TransferStage::Proposed(_),
                _,
            ) => Some(
                TransferActionView::Authorize {
                    spending_key: account.spending_key().unwrap(),
                },
            ),
            (TransferStage::Proposed(_), TransferStage::Authorized(id), _) => Some(
                TransferActionView::FetchTransaction { id },
            ),
            (
                TransferStage::Authorized(_),
                TransferStage::Broadcast(_),
                TransferEvent::RawTransaction(Some(raw)),
            ) => Some(TransferActionView::Submit { raw: raw@ }),
            _ => None,
        }
    }

    /// Whether the transfer has ended.
    pub open spec fn is_over(self) -> bool {
        self.stage is Confirmed || self.stage is Failed
    }

    /// What the transfer has come to, once it has ended: the identifier of the
    /// transaction that the chain index accepted, or the error.
    pub open spec fn outcome_value(self) -> Option<Result<TransactionId, TransferError>> {
        match self.stage {
            TransferStage::Confirmed(id) => Some(Ok(id)),
            TransferStage::Failed(error) => Some(Err(error)),
            _ => None,
        }
    }

    /// What the transfer has come to, or `None` while it is in flight.
    pub fn outcome(&self) -> (outcome: Option<Result<TransactionId, TransferError>>)
        ensures
            outcome == self.outcome_value(),
    {
        match &self.stage {
            TransferStage::Confirmed(id) => Some(Ok(*id)),
            TransferStage::Failed(error) => Some(
                Err(
                    match error {
                        TransferError::InvalidAddress => TransferError::InvalidAddress,
                        TransferError::InsufficientFunds => TransferError::InsufficientFunds,
                        TransferError::AuthorizationFailed => TransferError::AuthorizationFailed,
                        TransferError::Rejected { code, message } => TransferError::Rejected {
                            code: *code,
                            message: message.clone(),
                        },
                        TransferError::SubmissionUncertain => TransferError::SubmissionUncertain,
                    },
                ),
            ),
            _ => None,
        }
    }

    /// Takes the transfer one step on: interprets what came back and says what
    /// to ask for next. `None` means that the transfer has ended.
    pub fn step(self, account: &mut SpendingAccount, event: TransferEvent) -> (next: (
        Transfer,
        Option<TransferAction>,
    ))
        ensures
            next.0 == self.after(old(account)@, event),
            final(account)@ == self.account_after(old(account)@, event),
            issued(next.1) == self.action_after(old(account)@, event),
    {
        let Transfer { amount, destination, pool, fee_rule, min_confirmations, stage } = self;
        let (stage, action): (TransferStage, Option<TransferAction>) = match stage {
            TransferStage::AwaitingSummary => {
                let covered: bool = match event {
                    TransferEvent::Summary(Some(summary)) => is_amount(amount)
                        && summary.min_confirmations == min_confirmations && amount as u128
                        <= summary.spendable_in(pool),
                    _ => false,
                };
                if covered {
                    let request = TransferAction::BuildProposal {
                        destination: destination.clone(),
                        amount,
                        pool,
                        fee_rule,
                        min_confirmations,
                    };
                    (TransferStage::AwaitingProposal, Some(request))
                } else {
                    (TransferStage::Failed(TransferError::InsufficientFunds), None)
                }
            },
            TransferStage::AwaitingProposal => match event {
                TransferEvent::Proposal(Some(proposal)) => {
                    let answered: bool = proposal.amount == amount && proposal.pool == pool
                        && proposal.fee_rule == fee_rule && proposal.scanned_height
                        == account.scanned_height();
                    if !answered {
                        let request = TransferAction::BuildProposal {
                            destination: destination.clone(),
                            amount,
                            pool,
                            fee_rule,
                            min_confirmations,
                        };
                        (TransferStage::AwaitingProposal, Some(request))
                    } else if proposal.change().is_none() {
                        (TransferStage::Failed(TransferError::InsufficientFunds), None)
                    } else {
                        match spending_key_from_seed(account.policy().network, account.seed(), ACCOUNT_INDEX) {
                            Some(bytes) => (
                                TransferStage::Proposed(proposal),
                                Some(
                                    TransferAction::Authorize {
                                        spending_key: SpendingKey { bytes },
                                    },
                                ),
                            ),
                            None => (
                                TransferStage::Failed(TransferError::AuthorizationFailed),
                                None,
                            ),
                        }
                    }
                },
                _ => (TransferStage::Failed(TransferError::InsufficientFunds), None),
            },
            TransferStage::Proposed(_) => {
                let signed: Option<TransactionId> = match event {
                    TransferEvent::Signed(ids) => if ids.len() > 0 {
                        Some(ids[0])
                    } else {
                        None
                    },
                    _ => None,
                };
                match signed {
                    Some(id) => (
                        TransferStage::Authorized(id),
                        Some(TransferAction::FetchTransaction { id }),
                    ),
                    None => (TransferStage::Failed(TransferError::AuthorizationFailed), None),
                }
            },
            TransferStage::Authorized(id) => match event {
                TransferEvent::RawTransaction(Some(raw)) => (
                    TransferStage::Broadcast(id),
                    Some(TransferAction::Submit { raw }),
                ),
                _ => (TransferStage::Failed(TransferError::AuthorizationFailed), None),
            },
            TransferStage::Broadcast(id) => match event {
                TransferEvent::SubmitReply { code, message } => if code == 0 {
                    account.set_last_transaction(id);
                    (TransferStage::Confirmed(id), None)
                } else {
                    (TransferStage::Failed(TransferError::Rejected { code, message }), None)
                },
                _ => (TransferStage::Failed(TransferError::SubmissionUncertain), None),
            },
            TransferStage::Confirmed(id) => (TransferStage::Confirmed(id), None),
            TransferStage::Failed(error) => (TransferStage::Failed(error), None),
        };
        (Transfer { amount, destination, pool, fee_rule, min_confirmations, stage }, action)
    }
}

impl Transfer {
    /// The transfer after a run of events, fed one after another.
    pub open spec fn after_all(self, account: AccountModel, events: Seq<TransferEvent>) -> Transfer
        decreases events.len(),
    {
        if events.len() == 0 {
            self
        } else {
            self.after(account, events[0]).after_all(
                self.account_after(account, events[0]),
                events.drop_first(),
            )
        }
    }

    /// Whether a run of events has no effect outside the transfer: no step asks
    /// for anything, and the account stays as it is.
    pub open spec fn silent(self, account: AccountModel, events: Seq<TransferEvent>) -> bool
        decreases events.len(),
    {
        events.len() == 0 || {
            &&& self.action_after(account, events[0]) is None
            &&& self.account_after(account, events[0]) == account
            &&& self.after(account, events[0]).silent(account, events.drop_first())
        }
    }
}

/// A transfer that has ended stays as it is: whatever arrives later changes
/// neither the transfer nor the account, and nothing is asked for.
pub proof fn law_ended_transfer_is_final(
    transfer: Transfer,
    account: AccountModel,
    events: Seq<TransferEvent>,
)
    requires
        transfer.is_over(),
    ensures
        transfer.after_all(account, events) == transfer,
        transfer.silent(account, events),
    decreases events.len(),
{
    if events.len() > 0 {
        law_ended_transfer_is_final(transfer, account, events.drop_first());
    }
}

/// An amount above the whole spendable balance fails with `InsufficientFunds`
/// as soon as the summary arrives, and the transfer has no effect: neither that
/// step nor any later one asks for a proposal, an authorization or a
/// submission, and the account stays as it is.
pub proof fn law_amount_above_balance_fails_silently(
    transfer: Transfer,
    account: AccountModel,
    summary: WalletSummary,
    later: Seq<TransferEvent>,
)
    requires
        transfer.stage is AwaitingSummary,
        transfer.amount > spendable_total(summary.balances@),
    ensures
        transfer.after(account, TransferEvent::Summary(Some(summary))) == transfer.failed(
            TransferError::InsufficientFunds,
        ),
        transfer.after_all(account, seq![TransferEvent::Summary(Some(summary))] + later)
            == transfer.failed(TransferError::InsufficientFunds),
        transfer.silent(account, seq![TransferEvent::Summary(Some(summary))] + later),
{
    let first = TransferEvent::Summary(Some(summary));
    let events = seq![first] + later;
    lemma_spendable_in_le_total(summary.balances@, transfer.pool);
    assert(!transfer.covered_by(summary));
    assert(events[0] == first);
    assert(events.drop_first() == later);
    law_ended_transfer_is_final(transfer.failed(TransferError::InsufficientFunds), account, later);
}

/// An authorization is asked for only in answer to a proposal that is the
/// plan for this transfer at the account's scanned height and whose inputs
/// cover the amount and the fee; what is left over is the change.
pub proof fn law_authorization_follows_funded_proposal(
    transfer: Transfer,
    account: AccountModel,
    event: TransferEvent,
)
    requires
        transfer.action_after(account, event) matches Some(TransferActionView::Authorize { .. }),
    ensures
        event matches TransferEvent::Proposal(Some(proposal)) && {
            &&& transfer.answered_by(proposal, account.scanned)
            &&& input_total(proposal.inputs@) == transfer.amount + proposal.fee
                + proposal.change_value()
            &&& proposal.change_value() >= 0
            &&& transfer.after(account, event).stage == TransferStage::Proposed(proposal)
        },
{
}

/// Bytes are handed to the chain index at most once in a transfer: a
/// submission is asked for only by the step that leaves `Authorized`, and no
/// step leads back there.
pub proof fn law_submission_is_asked_once(
    transfer: Transfer,
    account: AccountModel,
    event: TransferEvent,
)
    ensures
        transfer.action_after(account, event) matches Some(TransferActionView::Submit { .. })
            ==> transfer.stage is Authorized && transfer.after(account, event).stage is Broadcast,
        transfer.after(account, event).stage is Authorized ==> transfer.stage is Proposed,
        transfer.stage is Broadcast ==> transfer.after(account, event).is_over(),
{
}

impl SpendingAccount {
    /// Starts a transfer of `amount` to `recipient` under the account's policy.
    ///
    /// A recipient that is no address ends the transfer at once with
    /// `InvalidAddress`, before anything is asked of the store.
    pub fn transfer(&self, amount: u64, recipient: &str) -> (started: (
        Transfer,
        Option<TransferAction>,
    ))
        ensures
            started.0.amount == amount,
            started.0.destination@ == recipient@,
            started.0.pool == self@.policy.source_pool,
            started.0.fee_rule == self@.policy.fee_rule,
            started.0.min_confirmations == self@.policy.min_confirmations,
            started.0.stage == if is_destination(recipient@) {
                TransferStage::AwaitingSummary
            } else {
                TransferStage::Failed(TransferError::InvalidAddress)
            },
            issued(started.1) == if is_destination(recipient@) {
                Some(
                    TransferActionView::ReadSummary {
                        min_confirmations: self@.policy.min_confirmations,
                    },
                )
            } else {
                None
            },
    {
        let policy = self.policy();
        if decodes_to_destination(recipient) {
            (
                Transfer {
                    amount,
                    destination: recipient.to_owned(),
                    pool: policy.source_pool,
                    fee_rule: policy.fee_rule,
                    min_confirmations: policy.min_confirmations,
                    stage: TransferStage::AwaitingSummary,
                },
                Some(TransferAction::ReadSummary { min_confirmations: policy.min_confirmations }),
            )
        } else {
            (
                Transfer {
                    amount,
                    destination: recipient.to_owned(),
                    pool: policy.source_pool,
                    fee_rule: policy.fee_rule,
                    min_confirmations: policy.min_confirmations,
                    stage: TransferStage::Failed(TransferError::InvalidAddress),
                },
                None,
            )
        }
    }
}

} // verus!
