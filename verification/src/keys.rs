//! Key material: from a recovery phrase to a seed, and from a seed to the keys
//! of the account at index zero on the test network.

use vstd::prelude::*;
use secrecy::ExposeSecret;
use crate::types::Network;

verus! {

/// The capability to detect and read what the account receives. It is what the
/// wallet store is given; it authorizes no spend.
#[derive(Clone, Debug, PartialEq, Eq)]
pub struct ViewingKey {
    /// The string encoding of the unified full viewing key.
    pub encoded: String,
}

/// The capability to spend. It is derived from the seed when a proposal is to
/// be authorized, handed to the authorization alone, and kept nowhere.
#[derive(Clone, Debug, PartialEq, Eq)]
pub struct SpendingKey {
    /// The byte encoding of the unified spending key.
    pub bytes: Vec<u8>,
}

/// The index of the one account that the library derives keys for.
pub const ACCOUNT_INDEX: u32 = 0;

/// The seed that a recovery phrase expands to with a passphrase, or `None`
/// where the phrase is no valid English mnemonic.
pub uninterp spec fn phrase_seed(phrase: Seq<char>, passphrase: Seq<char>) -> Option<Seq<u8>>;

/// The encoding of the unified full viewing key that a seed derives for an
/// account index on a network, or `None` where it derives none.
pub uninterp spec fn viewing_key_encoding(network: Network, seed: Seq<u8>, account: u32) -> Option<
    Seq<char>,
>;

/// The byte encoding of the unified spending key that a seed derives for an
/// account index on a network, or `None` where it derives none.
pub uninterp spec fn spending_key_encoding(network: Network, seed: Seq<u8>, account: u32) -> Option<
    Seq<u8>,
>;

/// Calls `bip0039::Mnemonic::<English>::from_phrase` and, where it accepts the
/// phrase, `Mnemonic::to_seed` with the passphrase. Both are functions of
/// their arguments alone; the contract gives their combined result its name.
#[verifier::external_body]
pub(crate) fn seed_from_phrase(phrase: &str, passphrase: &str) -> (seed: Option<[u8; 64]>)
    ensures
        phrase_seed(phrase@, passphrase@) == match seed {
            Some(s) => Some(s@),
            None => None,
        },
{
    match bip0039::Mnemonic::<bip0039::English>::from_phrase(phrase) {
        Ok(mnemonic) => Some(mnemonic.to_seed(passphrase)),
        Err(_) => None,
    }
}

/// Calls `zip32::AccountId::try_from` on the index and
/// `zcash_keys::keys::UnifiedSpendingKey::from_seed` on the seed, then
/// `to_unified_full_viewing_key` and `UnifiedFullViewingKey::encode` on the key
/// derived. They are functions of their arguments alone; the contract gives
/// their combined result its name.
#[verifier::external_body]
pub(crate) fn viewing_key_from_seed(network: Network, seed: &[u8; 64], account: u32) -> (key:
    Option<String>)
    ensures
        viewing_key_encoding(network, seed@, account) == match key {
            Some(k) => Some(k@),
            None => None,
        },
{
    let network = match network {
        Network::Main => zcash_protocol::consensus::Network::MainNetwork,
        Network::Test => zcash_protocol::consensus::Network::TestNetwork,
    };
    let account = zip32::AccountId::try_from(account).ok()?;
    match zcash_keys::keys::UnifiedSpendingKey::from_seed(&network, seed, account) {
        Ok(usk) => usk.to_unified_full_viewing_key().encode(&network).ok(),
        Err(_) => None,
    }
}

/// Calls `zip32::AccountId::try_from` on the index and
/// `zcash_keys::keys::UnifiedSpendingKey::from_seed` on the seed, then
/// `UnifiedSpendingKey::to_bytes` for the Orchard era on the key derived, read
/// through `secrecy::ExposeSecret::expose_secret`. They are functions of their
/// arguments alone; the contract gives their combined result its name.
#[verifier::external_body]
pub(crate) fn spending_key_from_seed(network: Network, seed: &[u8; 64], account: u32) -> (key:
    Option<Vec<u8>>)
    ensures
        spending_key_encoding(network, seed@, account) == match key {
            Some(k) => Some(k@),
            None => None,
        },
{
    let network = match network {
        Network::Main => zcash_protocol::consensus::Network::MainNetwork,
        Network::Test => zcash_protocol::consensus::Network::TestNetwork,
    };
    let account = zip32::AccountId::try_from(account).ok()?;
    match zcash_keys::keys::UnifiedSpendingKey::from_seed(&network, seed, account) {
        Ok(usk) => Some(usk.to_bytes(zcash_keys::keys::Era::Orchard).expose_secret().to_vec()),
        Err(_) => None,
    }
}

} // verus!
