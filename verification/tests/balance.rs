use wallet_core::account::{FeeRule, Policy, Pool, SpendingAccount};
use wallet_core::balance::{
    BalanceAction, BalanceEvent, BalanceQuery, PlainBalance, PoolBalance, TotalBalance,
    WalletSummary,
};
use wallet_core::error::BalanceError;
use wallet_core::types::{AccountId, Network};

const PHRASE: &str =
    "abandon abandon abandon abandon abandon abandon abandon abandon abandon abandon abandon about";

fn account() -> SpendingAccount {
    SpendingAccount::new(PHRASE).unwrap()
}

fn summary(min_confirmations: u32, entries: &[(Pool, u64)]) -> WalletSummary {
    WalletSummary {
        scanned_height: 150,
        min_confirmations,
        balances: entries.iter().map(|(pool, spendable)| PoolBalance { pool: *pool, spendable: *spendable }).collect(),
    }
}

fn unified_address(request: zcash_keys::keys::UnifiedAddressRequest) -> zcash_keys::address::UnifiedAddress {
    let seed = bip0039::Mnemonic::<bip0039::English>::from_phrase(PHRASE).unwrap().to_seed("");
    let network = zcash_protocol::consensus::TEST_NETWORK;
    zcash_keys::keys::UnifiedSpendingKey::from_seed(&network, &seed, zip32::AccountId::ZERO)
        .unwrap()
        .to_unified_full_viewing_key()
        .default_address(request)
        .unwrap()
        .0
}

fn encoded(address: &zcash_keys::address::UnifiedAddress) -> String {
    address.encode(&zcash_protocol::consensus::TEST_NETWORK)
}

fn plain_of(address: &zcash_keys::address::UnifiedAddress) -> String {
    zcash_keys::address::Address::Transparent(*address.transparent().unwrap())
        .encode(&zcash_protocol::consensus::TEST_NETWORK)
}

#[test]
fn spendable_in_adds_the_entries_of_one_pool() {
    let s = summary(
        1,
        &[
            (Pool::Sapling, 1000),
            (Pool::Orchard, 2500),
            (Pool::Sapling, 500),
            (Pool::Transparent, 40),
        ],
    );
    assert_eq!(s.spendable_in(Pool::Sapling), 1500);
    assert_eq!(s.spendable_in(Pool::Orchard), 2500);
    assert_eq!(s.spendable_in(Pool::Transparent), 40);
    assert_eq!(summary(1, &[]).spendable_in(Pool::Orchard), 0);
}

#[test]
fn spendable_in_does_not_overflow() {
    let s = summary(1, &[(Pool::Orchard, u64::MAX), (Pool::Orchard, u64::MAX), (Pool::Orchard, 2)]);
    assert_eq!(s.spendable_in(Pool::Orchard), 2 * (u64::MAX as u128) + 2);
}

#[test]
fn balance_is_the_sum_of_the_pools_and_the_plain_value() {
    let s = summary(1, &[(Pool::Sapling, 1000), (Pool::Orchard, 2500), (Pool::Sapling, 500)]);
    let total = account().balance(1, Some(&s), Ok(PlainBalance::Known(700)));
    assert_eq!(
        total,
        Ok(TotalBalance {
            scanned_height: 150,
            min_confirmations: 1,
            sapling: 1500,
            orchard: 2500,
            plain: PlainBalance::Known(700),
            total: 4700,
        })
    );
}

#[test]
fn an_unavailable_plain_balance_is_not_a_zero() {
    let s = summary(1, &[(Pool::Sapling, 1000), (Pool::Orchard, 2500)]);
    let unknown = account().balance(1, Some(&s), Ok(PlainBalance::Unavailable)).unwrap();
    let zero = account().balance(1, Some(&s), Ok(PlainBalance::Known(0))).unwrap();
    assert_eq!(unknown.total, 3500);
    assert_eq!(zero.total, 3500);
    assert_eq!(unknown.plain, PlainBalance::Unavailable);
    assert_eq!(zero.plain, PlainBalance::Known(0));
    assert_ne!(unknown, zero);
}

#[test]
fn the_store_s_own_plain_entries_are_not_counted_twice() {
    let s = summary(1, &[(Pool::Orchard, 10), (Pool::Transparent, 99)]);
    let total = account().balance(1, Some(&s), Ok(PlainBalance::Known(99))).unwrap();
    assert_eq!(total.total, 109);
}

#[test]
fn a_fresh_account_has_a_balance_of_zero() {
    let s = summary(1, &[(Pool::Sapling, 0), (Pool::Orchard, 0)]);
    let total = account().balance(1, Some(&s), Ok(PlainBalance::Known(0))).unwrap();
    assert_eq!((total.sapling, total.orchard, total.total), (0, 0, 0));
    let empty = account().balance(1, Some(&summary(1, &[])), Ok(PlainBalance::Known(0))).unwrap();
    assert_eq!(empty.total, 0);
}

#[test]
fn the_largest_values_do_not_overflow_the_total() {
    let s = summary(3, &[(Pool::Sapling, u64::MAX), (Pool::Orchard, u64::MAX)]);
    let total = account().balance(3, Some(&s), Ok(PlainBalance::Known(u64::MAX))).unwrap();
    assert_eq!(total.total, 3 * (u64::MAX as u128));
}

#[test]
fn without_a_summary_there_is_no_account() {
    let total = account().balance(1, None, Ok(PlainBalance::Known(5)));
    assert_eq!(total, Err(BalanceError::NoAccount));
}

#[test]
fn a_summary_under_another_policy_is_no_answer() {
    let s = summary(10, &[(Pool::Orchard, 2500)]);
    assert_eq!(account().balance(1, Some(&s), Ok(PlainBalance::Known(5))), Err(BalanceError::NoAccount));
    assert!(account().balance(10, Some(&s), Ok(PlainBalance::Known(5))).is_ok());
}

#[test]
fn a_plain_query_without_account_fails_the_balance() {
    let s = summary(1, &[(Pool::Orchard, 2500)]);
    assert_eq!(account().balance(1, Some(&s), Err(BalanceError::NoAccount)), Err(BalanceError::NoAccount));
}

#[test]
fn wallet_summary_reads_the_answer_of_the_store() {
    let s = summary(1, &[(Pool::Orchard, 2500)]);
    assert_eq!(account().wallet_summary(Some(s.clone())), Ok(s));
    assert_eq!(account().wallet_summary(None), Err(BalanceError::NoAccount));
    let other = summary(10, &[(Pool::Orchard, 2500)]);
    assert_eq!(account().wallet_summary(Some(other)), Err(BalanceError::NoAccount));
}

#[test]
fn the_plain_query_starts_with_the_accounts() {
    let (query, action) = account().get_transparent_balance();
    assert_eq!(query, BalanceQuery::AwaitingAccounts);
    assert_eq!(action, Some(BalanceAction::ListAccounts));
    assert_eq!(query.outcome(), None);
}

#[test]
fn a_store_without_accounts_has_no_account() {
    let (query, _) = account().get_transparent_balance();
    let (query, action) = query.step(&account(), BalanceEvent::Accounts(vec![]));
    assert_eq!(query, BalanceQuery::Failed(BalanceError::NoAccount));
    assert_eq!(action, None);
    assert_eq!(query.outcome(), Some(Err(BalanceError::NoAccount)));

    let (query, _) = account().get_transparent_balance();
    let (query, _) = query.step(&account(), BalanceEvent::Unavailable);
    assert_eq!(query, BalanceQuery::Failed(BalanceError::NoAccount));
}

#[test]
fn the_first_account_is_asked_for_its_addresses() {
    let (query, _) = account().get_transparent_balance();
    let (query, action) =
        query.step(&account(), BalanceEvent::Accounts(vec![AccountId { raw: 4 }, AccountId { raw: 5 }]));
    assert_eq!(query, BalanceQuery::AwaitingAddresses);
    assert_eq!(action, Some(BalanceAction::ListAddresses { account: AccountId { raw: 4 } }));
}

#[test]
fn an_account_without_addresses_holds_a_known_zero() {
    let (query, action) = BalanceQuery::AwaitingAddresses.step(&account(), BalanceEvent::Addresses(vec![]));
    assert_eq!(query, BalanceQuery::Done(PlainBalance::Known(0)));
    assert_eq!(action, None);
    assert_eq!(query.outcome(), Some(Ok(PlainBalance::Known(0))));
}

#[test]
fn an_address_without_plain_receiver_holds_a_known_zero() {
    let shielded = unified_address(zcash_keys::keys::UnifiedAddressRequest::SHIELDED);
    assert!(shielded.transparent().is_none());
    let (query, action) =
        BalanceQuery::AwaitingAddresses.step(&account(), BalanceEvent::Addresses(vec![encoded(&shielded)]));
    assert_eq!(query, BalanceQuery::Done(PlainBalance::Known(0)));
    assert_eq!(action, None);
}

#[test]
fn a_string_that_is_no_address_holds_a_known_zero() {
    let (query, action) = BalanceQuery::AwaitingAddresses
        .step(&account(), BalanceEvent::Addresses(vec![String::from("not an address")]));
    assert_eq!(query, BalanceQuery::Done(PlainBalance::Known(0)));
    assert_eq!(action, None);
}

#[test]
fn the_plain_receiver_of_the_first_address_is_queried() {
    let full = unified_address(zcash_keys::keys::UnifiedAddressRequest::ALLOW_ALL);
    let shielded = unified_address(zcash_keys::keys::UnifiedAddressRequest::SHIELDED);
    let (query, action) = BalanceQuery::AwaitingAddresses
        .step(&account(), BalanceEvent::Addresses(vec![encoded(&full), encoded(&shielded)]));
    assert_eq!(query, BalanceQuery::AwaitingBalance);
    let expected = plain_of(&full);
    assert!(expected.starts_with("tm"));
    assert_ne!(expected, encoded(&full));
    assert_eq!(action, Some(BalanceAction::GetPlainBalance { address: expected }));
}

#[test]
fn a_plain_address_is_its_own_plain_receiver() {
    let plain = plain_of(&unified_address(zcash_keys::keys::UnifiedAddressRequest::ALLOW_ALL));
    let (_, action) =
        BalanceQuery::AwaitingAddresses.step(&account(), BalanceEvent::Addresses(vec![plain.clone()]));
    assert_eq!(action, Some(BalanceAction::GetPlainBalance { address: plain }));
}

#[test]
fn an_address_of_another_network_has_no_plain_receiver_here() {
    let mainnet_plain = String::from("t1Hsc1LR8yKnbbe3twRp88p6vFfC5t7DLbs");
    let (query, action) = BalanceQuery::AwaitingAddresses
        .step(&account(), BalanceEvent::Addresses(vec![mainnet_plain.clone()]));
    assert_eq!(query, BalanceQuery::Done(PlainBalance::Known(0)));
    assert_eq!(action, None);

    let policy = Policy {
        network: Network::Main,
        source_pool: Pool::Orchard,
        fee_rule: FeeRule::Zip317,
        min_confirmations: 1,
        reveal_birthday: true,
    };
    let on_main = account().with_policy(policy);
    let (query, action) = BalanceQuery::AwaitingAddresses
        .step(&on_main, BalanceEvent::Addresses(vec![mainnet_plain.clone()]));
    assert_eq!(query, BalanceQuery::AwaitingBalance);
    assert_eq!(action, Some(BalanceAction::GetPlainBalance { address: mainnet_plain }));
}

#[test]
fn the_reported_value_is_the_plain_balance() {
    let (query, action) = BalanceQuery::AwaitingBalance.step(&account(), BalanceEvent::Balance(12_345));
    assert_eq!(query, BalanceQuery::Done(PlainBalance::Known(12_345)));
    assert_eq!(action, None);
    let (query, _) = BalanceQuery::AwaitingBalance.step(&account(), BalanceEvent::Balance(0));
    assert_eq!(query, BalanceQuery::Done(PlainBalance::Known(0)));
}

#[test]
fn a_failed_query_leaves_the_plain_balance_unavailable() {
    let (query, action) = BalanceQuery::AwaitingBalance.step(&account(), BalanceEvent::Unavailable);
    assert_eq!(query, BalanceQuery::Done(PlainBalance::Unavailable));
    assert_eq!(action, None);
    let (query, _) = BalanceQuery::AwaitingAddresses.step(&account(), BalanceEvent::Unavailable);
    assert_eq!(query, BalanceQuery::Done(PlainBalance::Unavailable));
    assert_eq!(query.outcome(), Some(Ok(PlainBalance::Unavailable)));
}

#[test]
fn an_ended_query_stays_as_it_is() {
    let done = BalanceQuery::Done(PlainBalance::Known(7));
    assert_eq!(done.step(&account(), BalanceEvent::Balance(9)), (done, None));
    let failed = BalanceQuery::Failed(BalanceError::NoAccount);
    assert_eq!(failed.step(&account(), BalanceEvent::Accounts(vec![AccountId { raw: 1 }])), (failed, None));
}
