//! Address strings: which ones name a destination, and which plain receiver an
//! address of the account holds.

use vstd::prelude::*;
use crate::types::Network;

verus! {

/// Whether a string decodes to an address that value can be sent to.
pub uninterp spec fn is_destination(encoded: Seq<char>) -> bool;

/// The encoding of the plain receiver of an address of a network, or `None`
/// where the string is no address of that network or holds no plain receiver.
pub uninterp spec fn plain_receiver(network: Network, encoded: Seq<char>) -> Option<Seq<char>>;

/// Calls `zcash_address::ZcashAddress::try_from_encoded` and, where it parses,
/// `ZcashAddress::convert` into `zcash_keys::address::Address`. The contract
/// names whether both succeed.
#[verifier::external_body]
pub(crate) fn decodes_to_destination(encoded: &str) -> (ok: bool)
    ensures
        ok == is_destination(encoded@),
{
    match zcash_address::ZcashAddress::try_from_encoded(encoded) {
        Ok(address) => address.convert::<zcash_keys::address::Address>().is_ok(),
        Err(_) => false,
    }
}

/// Calls `zcash_keys::address::Address::decode` for the network, then
/// `Address::to_transparent_address`, then `Address::encode` on the receiver
/// found. The contract names the combined result.
#[verifier::external_body]
pub(crate) fn plain_receiver_of(network: Network, encoded: &str) -> (receiver: Option<String>)
    ensures
        plain_receiver(network, encoded@) == match receiver {
            Some(r) => Some(r@),
            None => None,
        },
{
    let network = match network {
        Network::Main => zcash_protocol::consensus::Network::MainNetwork,
        Network::Test => zcash_protocol::consensus::Network::TestNetwork,
    };
    match zcash_keys::address::Address::decode(&network, encoded) {
        Some(address) => match address.to_transparent_address() {
            Some(plain) => Some(zcash_keys::address::Address::Transparent(plain).encode(&network)),
            None => None,
        },
        None => None,
    }
}

} // verus!
