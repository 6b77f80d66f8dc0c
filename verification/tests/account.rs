use wallet_core::account::{FeeRule, Policy, Pool, SpendingAccount};
use wallet_core::error::BootstrapError;
use wallet_core::types::Network;

const PHRASE: &str =
    "abandon abandon abandon abandon abandon abandon abandon abandon abandon abandon abandon about";

#[test]
fn new_starts_a_fresh_account() {
    let account = SpendingAccount::new(PHRASE).unwrap();
    assert_eq!(account.account_id(), None);
    assert_eq!(account.birthday(), 0);
    assert_eq!(account.scanned_height(), 0);
    assert_eq!(account.last_transaction(), None);
    assert_eq!(
        account.policy(),
        Policy {
            network: Network::Test,
            source_pool: Pool::Orchard,
            fee_rule: FeeRule::Zip317,
            min_confirmations: 1,
            reveal_birthday: true,
        }
    );
}

#[test]
fn new_accepts_a_phrase_of_twenty_four_words() {
    let phrase = "abandon abandon abandon abandon abandon abandon abandon abandon abandon abandon abandon abandon abandon abandon abandon abandon abandon abandon abandon abandon abandon abandon abandon art";
    assert!(SpendingAccount::new(phrase).is_ok());
}

#[test]
fn new_accepts_surrounding_and_repeated_blanks() {
    let phrase = "  abandon abandon  abandon abandon abandon abandon abandon abandon abandon abandon abandon about ";
    assert!(SpendingAccount::new(phrase).is_ok());
}

#[test]
fn new_rejects_a_bad_checksum() {
    let phrase = "abandon abandon abandon abandon abandon abandon abandon abandon abandon abandon abandon abandon";
    assert_eq!(SpendingAccount::new(phrase).err(), Some(BootstrapError::InvalidPhrase));
}

#[test]
fn new_rejects_an_unknown_word() {
    let phrase = "abandon abandon abandon abandon abandon abandon abandon abandon abandon abandon abandon zcash";
    assert_eq!(SpendingAccount::new(phrase).err(), Some(BootstrapError::InvalidPhrase));
}

#[test]
fn new_rejects_a_wrong_number_of_words() {
    assert_eq!(SpendingAccount::new("abandon about").err(), Some(BootstrapError::InvalidPhrase));
    assert_eq!(SpendingAccount::new("").err(), Some(BootstrapError::InvalidPhrase));
}

#[test]
fn with_policy_replaces_the_policy_only() {
    let policy = Policy {
        network: Network::Test,
        source_pool: Pool::Sapling,
        fee_rule: FeeRule::Zip317,
        min_confirmations: 10,
        reveal_birthday: false,
    };
    let account = SpendingAccount::new(PHRASE).unwrap().with_policy(policy);
    assert_eq!(account.policy(), policy);
    assert_eq!(account.account_id(), None);
    assert_eq!(account.scanned_height(), 0);
}
