//! Balances: what the wallet store reports per pool, what the chain index
//! reports for the plain address, and their total.

use vstd::prelude::*;
use crate::account::{AccountModel, Pool, SpendingAccount};
use crate::address::{plain_receiver, plain_receiver_of};
use crate::error::BalanceError;
use crate::types::{AccountId, Network};

verus! {

/// The spendable value that the wallet store reports for one pool.
#[derive(Clone, Copy, Debug, PartialEq, Eq, Structural)]
pub struct PoolBalance {
    pub pool: Pool,
    pub spendable: u64,
}

/// The wallet store's summary as of its last scanned height, counting as
/// spendable what has at least `min_confirmations` confirmations.
#[derive(Clone, Debug, PartialEq, Eq)]
pub struct WalletSummary {
    pub scanned_height: u64,
    pub min_confirmations: u32,
    pub balances: Vec<PoolBalance>,
}

/// The spendable value of one pool among some entries: the sum over the
/// entries of that pool.
pub open spec fn spendable_in(balances: Seq<PoolBalance>, pool: Pool) -> nat
    decreases balances.len(),
{
    if balances.len() == 0 {
        0
    } else {
        spendable_in(balances.drop_last(), pool) + if balances.last().pool == pool {
            balances.last().spendable as nat
        } else {
            0
        }
    }
}

/// The spendable value of all entries together.
pub open spec fn spendable_total(balances: Seq<PoolBalance>) -> nat
    decreases balances.len(),
{
    if balances.len() == 0 {
        0
    } else {
        spendable_total(balances.drop_last()) + balances.last().spendable as nat
    }
}

/// A sum of entries is at most as many times the largest value of an entry.
pub proof fn lemma_spendable_total_bound(balances: Seq<PoolBalance>)
    ensures
        spendable_total(balances) <= balances.len() * u64::MAX,
    decreases balances.len(),
{
    if balances.len() > 0 {
        lemma_spendable_total_bound(balances.drop_last());
        assert(spendable_total(balances) <= (balances.len() - 1) * u64::MAX + u64::MAX);
        assert((balances.len() - 1) * u64::MAX + u64::MAX == balances.len() * u64::MAX)
            by (nonlinear_arith);
    }
}

/// No pool holds more than all pools together.
pub proof fn lemma_spendable_in_le_total(balances: Seq<PoolBalance>, pool: Pool)
    ensures
        spendable_in(balances, pool) <= spendable_total(balances),
    decreases balances.len(),
{
    if balances.len() > 0 {
        lemma_spendable_in_le_total(balances.drop_last(), pool);
    }
}

/// The pools partition the entries: the total is the sum of the three pools.
pub proof fn lemma_spendable_total_by_pool(balances: Seq<PoolBalance>)
    ensures
        spendable_total(balances) == spendable_in(balances, Pool::Sapling) + spendable_in(
            balances,
            Pool::Orchard,
        ) + spendable_in(balances, Pool::Transparent),
    decreases balances.len(),
{
    if balances.len() > 0 {
        lemma_spendable_total_by_pool(balances.drop_last());
    }
}

impl WalletSummary {
    /// The spendable value that the summary reports for `pool`.
    pub fn spendable_in(&self, pool: Pool) -> (value: u128)
        ensures
            value == spendable_in(self.balances@, pool),
    {
        let mut value: u128 = 0;
        let mut i: usize = 0;
        while i < self.balances.len()
            invariant
                i <= self.balances.len(),
                value == spendable_in(self.balances@.take(i as int), pool),
                value <= spendable_total(self.balances@.take(i as int)),
            decreases self.balances.len() - i,
        {
            let entry = self.balances[i];
            proof {
                let next = self.balances@.take(i + 1);
                assert(next.drop_last() == self.balances@.take(i as int));
                assert(next.last() == entry);
                lemma_spendable_total_bound(next);
                assert(next.len() * u64::MAX <= usize::MAX * u64::MAX) by (nonlinear_arith)
                    requires
                        next.len() <= usize::MAX,
                ;
                assert(usize::MAX * u64::MAX <= u128::MAX) by (nonlinear_arith)
                    requires
                        usize::MAX <= u64::MAX,
                ;
            }
            if entry.pool == pool {
                value = value + entry.spendable as u128;
            }
            i = i + 1;
        }
        proof {
            assert(self.balances@.take(i as int) == self.balances@);
        }
        value
    }
}

/// What the chain index says the plain address holds.
#[derive(Clone, Copy, Debug, PartialEq, Eq, Structural)]
pub enum PlainBalance {
    /// The value reported; zero where the account has no plain address.
    Known(u64),
    /// The query failed: the value is unknown, which is not zero.
    Unavailable,
}

/// The balance of the account: the shielded pools as the store reports them,
/// the plain address as the chain index reports it, and their sum.
#[derive(Clone, Copy, Debug, PartialEq, Eq, Structural)]
pub struct TotalBalance {
    /// The scanned height that the shielded values are as of.
    pub scanned_height: u64,
    /// The confirmations that the shielded values are counted under.
    pub min_confirmations: u32,
    pub sapling: u128,
    pub orchard: u128,
    pub plain: PlainBalance,
    /// The sum of the components that are known.
    pub total: u128,
}

impl PlainBalance {
    /// The value that enters a total: nothing where the value is unknown.
    pub open spec fn counted(self) -> nat {
        match self {
            PlainBalance::Known(value) => value as nat,
            PlainBalance::Unavailable => 0,
        }
    }
}

/// The summary that an answer of the store amounts to under a confirmation
/// policy: the one it holds, where it holds one counted under that policy.
pub open spec fn summary_under(min_confirmations: u32, reply: Option<WalletSummary>) -> Result<
    WalletSummary,
    BalanceError,
> {
    match reply {
        Some(summary) => if summary.min_confirmations == min_confirmations {
            Ok(summary)
        } else {
            Err(BalanceError::NoAccount)
        },
        None => Err(BalanceError::NoAccount),
    }
}

/// The balance that an answer of the store and the outcome of the plain query
/// add up to.
///
/// There is none without a summary counted under the confirmations asked for,
/// nor where the plain query found no account.
pub open spec fn total_balance(
    min_confirmations: u32,
    summary: Option<WalletSummary>,
    plain: Result<PlainBalance, BalanceError>,
) -> Result<TotalBalance, BalanceError> {
    match (plain, summary_under(min_confirmations, summary)) {
        (Err(error), _) => Err(error),
        (Ok(_), Err(error)) => Err(error),
        (Ok(plain), Ok(summary)) => Ok(
            TotalBalance {
                scanned_height: summary.scanned_height,
                min_confirmations,
                sapling: spendable_in(summary.balances@, Pool::Sapling) as u128,
                orchard: spendable_in(summary.balances@, Pool::Orchard) as u128,
                plain,
                total: (spendable_in(summary.balances@, Pool::Sapling) + spendable_in(
                    summary.balances@,
                    Pool::Orchard,
                ) + plain.counted()) as u128,
            },
        ),
    }
}

/// The shielded pools and a plain value sum to no more than a `u128` holds.
pub proof fn lemma_total_fits(balances: Seq<PoolBalance>, plain: PlainBalance)
    requires
        balances.len() <= usize::MAX,
    ensures
        spendable_in(balances, Pool::Sapling) + spendable_in(balances, Pool::Orchard)
            + plain.counted() <= u128::MAX,
{
    lemma_spendable_total_by_pool(balances);
    lemma_spendable_total_bound(balances);
    assert(balances.len() * u64::MAX + u64::MAX <= u128::MAX) by (nonlinear_arith)
        requires
            balances.len() <= u64::MAX,
    ;
}

/// A total is the sum of its parts: the spendable value of each shielded pool
/// and, where the plain query succeeded, the plain value. Where the query
/// failed the plain part is reported as unavailable, which is distinct from a
/// known zero, and the total holds the shielded pools alone.
pub proof fn law_total_is_sum_of_parts(
    min_confirmations: u32,
    summary: WalletSummary,
    plain: PlainBalance,
)
    requires
        summary.min_confirmations == min_confirmations,
    ensures
        total_balance(min_confirmations, Some(summary), Ok(plain)) matches Ok(balance) && {
            &&& balance.scanned_height == summary.scanned_height
            &&& balance.sapling == spendable_in(summary.balances@, Pool::Sapling)
            &&& balance.orchard == spendable_in(summary.balances@, Pool::Orchard)
            &&& balance.plain == plain
            &&& plain matches PlainBalance::Known(value) ==> balance.total == balance.sapling
                + balance.orchard + value
            &&& plain is Unavailable ==> balance.total == balance.sapling + balance.orchard
                && balance.plain != PlainBalance::Known(0)
        },
{
    assert(summary.balances.len() == summary.balances@.len());
    lemma_total_fits(summary.balances@, plain);
}

impl SpendingAccount {
    /// Reads what the store answered when asked for its summary under the
    /// account's confirmation policy. A store that holds no account has none.
    pub fn wallet_summary(&self, reply: Option<WalletSummary>) -> (summary: Result<
        WalletSummary,
        BalanceError,
    >)
        ensures
            summary == summary_under(self@.policy.min_confirmations, reply),
    {
        match reply {
            Some(summary) => {
                if summary.min_confirmations == self.policy().min_confirmations {
                    Ok(summary)
                } else {
                    Err(BalanceError::NoAccount)
                }
            },
            None => Err(BalanceError::NoAccount),
        }
    }

    /// Adds up the balance of the account from the store's summary and the
    /// outcome of the plain query.
    pub fn balance(
        &self,
        min_confirmations: u32,
        summary: Option<&WalletSummary>,
        plain: Result<PlainBalance, BalanceError>,
    ) -> (balance: Result<TotalBalance, BalanceError>)
        ensures
            balance == total_balance(
                min_confirmations,
                match summary {
                    Some(s) => Some(*s),
                    None => None,
                },
                plain,
            ),
    {
        let plain: PlainBalance = match plain {
            Ok(plain) => plain,
            Err(error) => {
                return Err(error);
            },
        };
        let summary: &WalletSummary = match summary {
            Some(summary) => summary,
            None => {
                return Err(BalanceError::NoAccount);
            },
        };
        if summary.min_confirmations != min_confirmations {
            return Err(BalanceError::NoAccount);
        }
        proof {
            assert(summary.balances.len() == summary.balances@.len());
            lemma_total_fits(summary.balances@, plain);
        }
        let sapling: u128 = summary.spendable_in(Pool::Sapling);
        let orchard: u128 = summary.spendable_in(Pool::Orchard);
        let counted: u128 = match plain {
            PlainBalance::Known(value) => value as u128,
            PlainBalance::Unavailable => 0,
        };
        Ok(
            TotalBalance {
                scanned_height: summary.scanned_height,
                min_confirmations,
                sapling,
                orchard,
                plain,
                total: sapling + orchard + counted,
            },
        )
    }
}

/// How far the query for the plain balance has come.
#[derive(Clone, Copy, Debug, PartialEq, Eq, Structural)]
pub enum BalanceQuery {
    /// The accounts of the store have been asked for.
    AwaitingAccounts,
    /// The addresses of the account have been asked for.
    AwaitingAddresses,
    /// The balance of the plain address has been asked for.
    AwaitingBalance,
    Done(PlainBalance),
    Failed(BalanceError),
}

/// What came back from the store or the chain index.
#[derive(Clone, Debug, PartialEq, Eq)]
pub enum BalanceEvent {
    Accounts(Vec<AccountId>),
    /// The addresses of the account, each in its string encoding.
    Addresses(Vec<String>),
    /// The value that the chain index reports for the address.
    Balance(u64),
    /// The request could not be served.
    Unavailable,
}

/// What the surrounding program is to do next.
#[derive(Clone, Debug, PartialEq, Eq)]
pub enum BalanceAction {
    ListAccounts,
    ListAddresses { account: AccountId },
    GetPlainBalance { address: String },
}

/// An action as contracts speak of it.
pub enum BalanceActionView {
    ListAccounts,
    ListAddresses { account: AccountId },
    GetPlainBalance { address: Seq<char> },
}

impl View for BalanceAction {
    type V = BalanceActionView;

    open spec fn view(&self) -> BalanceActionView {
        match *self {
            BalanceAction::ListAccounts => BalanceActionView::ListAccounts,
            BalanceAction::ListAddresses { account } => BalanceActionView::ListAddresses {
                account,
            },
            BalanceAction::GetPlainBalance { address } => BalanceActionView::GetPlainBalance {
                address: address@,
            },
        }
    }
}

/// The view of an action that may be absent.
pub open spec fn issued(action: Option<BalanceAction>) -> Option<BalanceActionView> {
    match action {
        Some(a) => Some(a@),
        None => None,
    }
}

/// The plain address of an account with these addresses: the plain receiver of
/// the first, where there is one.
pub open spec fn plain_address(network: Network, addresses: Seq<String>) -> Option<Seq<char>> {
    if addresses.len() == 0 {
        None
    } else {
        plain_receiver(network, addresses[0]@)
    }
}

impl BalanceQuery {
    /// The query after an event, and what is asked for in answer.
    ///
    /// Without an account the query fails. An account without a plain address
    /// holds a known zero. Where the addresses or the balance cannot be had the
    /// query ends with the balance unavailable.
    pub open spec fn after(self, account: AccountModel, event: BalanceEvent) -> (
        BalanceQuery,
        Option<BalanceActionView>,
    ) {
        match self {
            BalanceQuery::AwaitingAccounts => match event {
                BalanceEvent::Accounts(accounts) => if accounts@.len() > 0 {
                    (
                        BalanceQuery::AwaitingAddresses,
                        Some(BalanceActionView::ListAddresses { account: accounts@[0] }),
                    )
                } else {
                    (BalanceQuery::Failed(BalanceError::NoAccount), None)
                },
                _ => (BalanceQuery::Failed(BalanceError::NoAccount), None),
            },
            BalanceQuery::AwaitingAddresses => match event {
                BalanceEvent::Addresses(addresses) => match plain_address(
                    account.policy.network,
                    addresses@,
                ) {
                    Some(address) => (
                        BalanceQuery::AwaitingBalance,
                        Some(BalanceActionView::GetPlainBalance { address }),
                    ),
                    None => (BalanceQuery::Done(PlainBalance::Known(0)), None),
                },
                _ => (BalanceQuery::Done(PlainBalance::Unavailable), None),
            },
            BalanceQuery::AwaitingBalance => match event {
                BalanceEvent::Balance(value) => (
                    BalanceQuery::Done(PlainBalance::Known(value)),
                    None,
                ),
                _ => (BalanceQuery::Done(PlainBalance::Unavailable), None),
            },
            BalanceQuery::Done(_) => (self, None),
            BalanceQuery::Failed(_) => (self, None),
        }
    }

    /// What the query has found, once it has ended.
    pub open spec fn outcome_value(self) -> Option<Result<PlainBalance, BalanceError>> {
        match self {
            BalanceQuery::Done(plain) => Some(Ok(plain)),
            BalanceQuery::Failed(error) => Some(Err(error)),
            _ => None,
        }
    }

    /// What the query has found, or `None` while it is in flight.
    pub fn outcome(&self) -> (outcome: Option<Result<PlainBalance, BalanceError>>)
        ensures
            outcome == self.outcome_value(),
    {
        match *self {
            BalanceQuery::Done(plain) => Some(Ok(plain)),
            BalanceQuery::Failed(error) => Some(Err(error)),
            _ => None,
        }
    }

    /// Takes the query one step on: interprets what came back and says what to
    /// ask for next. `None` means that the query has ended.
    pub fn step(self, account: &SpendingAccount, event: BalanceEvent) -> (next: (
        BalanceQuery,
        Option<BalanceAction>,
    ))
        ensures
            next.0 == self.after(account@, event).0,
            issued(next.1) == self.after(account@, event).1,
    {
        match self {
            BalanceQuery::AwaitingAccounts => match event {
                BalanceEvent::Accounts(accounts) => {
                    if accounts.len() > 0 {
                        (
                            BalanceQuery::AwaitingAddresses,
                            Some(BalanceAction::ListAddresses { account: accounts[0] }),
                        )
                    } else {
                        (BalanceQuery::Failed(BalanceError::NoAccount), None)
                    }
                },
                _ => (BalanceQuery::Failed(BalanceError::NoAccount), None),
            },
            BalanceQuery::AwaitingAddresses => match event {
                BalanceEvent::Addresses(addresses) => {
                    if addresses.len() == 0 {
                        (BalanceQuery::Done(PlainBalance::Known(0)), None)
                    } else {
                        match plain_receiver_of(
                            account.policy().network,
                            addresses[0].as_str(),
                        ) {
                            Some(address) => (
                                BalanceQuery::AwaitingBalance,
                                Some(BalanceAction::GetPlainBalance { address }),
                            ),
                            None => (BalanceQuery::Done(PlainBalance::Known(0)), None),
                        }
                    }
                },
                _ => (BalanceQuery::Done(PlainBalance::Unavailable), None),
            },
            BalanceQuery::AwaitingBalance => match event {
                BalanceEvent::Balance(value) => (
                    BalanceQuery::Done(PlainBalance::Known(value)),
                    None,
                ),
                _ => (BalanceQuery::Done(PlainBalance::Unavailable), None),
            },
            BalanceQuery::Done(plain) => (BalanceQuery::Done(plain), None),
            BalanceQuery::Failed(error) => (BalanceQuery::Failed(error), None),
        }
    }
}

/// A plain balance that cannot be had fails nothing. Once the account is
/// found the query never fails: whatever arrives, it goes on or ends with a
/// balance, which is unavailable exactly where the addresses or the balance
/// could not be had, and is never a zero made up for a failed query.
pub proof fn law_plain_query_failure_is_not_fatal(
    query: BalanceQuery,
    account: AccountModel,
    event: BalanceEvent,
)
    requires
        query is AwaitingAddresses || query is AwaitingBalance,
    ensures
        !(query.after(account, event).0 is Failed),
        query.after(account, event).0 == BalanceQuery::Done(PlainBalance::Unavailable) <==> (
        query is AwaitingAddresses && !(event is Addresses)) || (query is AwaitingBalance && !(event
            is Balance)),
{
}

impl SpendingAccount {
    /// Starts the query for the balance of the account's plain address: the
    /// accounts of the store are asked for first.
    pub fn get_transparent_balance(&self) -> (started: (BalanceQuery, Option<BalanceAction>))
        ensures
            started.0 == BalanceQuery::AwaitingAccounts,
            issued(started.1) == Some(BalanceActionView::ListAccounts),
    {
        (BalanceQuery::AwaitingAccounts, Some(BalanceAction::ListAccounts))
    }
}

} // verus!
