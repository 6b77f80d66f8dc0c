//! What is shown of the account's addresses.

use vstd::prelude::*;
use crate::account::SpendingAccount;
use crate::address::{plain_receiver, plain_receiver_of};
use crate::types::Network;

verus! {

/// The lines that show the addresses of an account that has exactly one: the
/// address itself and its plain receiver. With none or several there is one
/// line that says so.
pub open spec fn address_report(network: Network, addresses: Seq<String>) -> Seq<Seq<char>> {
    if addresses.len() != 1 {
        seq!["more or less than one address found"@]
    } else {
        seq![
            "\n========================================"@,
            "YOUR WALLET ADDRESSES:"@,
            "========================================"@,
            "Unified (Shielded):"@,
            addresses[0]@,
            "\nTransparent:"@,
            match plain_receiver(network, addresses[0]@) {
                Some(plain) => plain,
                None => "No transparent address available"@,
            },
            "========================================\n"@,
        ]
    }
}

/// The text of each line.
pub open spec fn texts(lines: Seq<String>) -> Seq<Seq<char>> {
    lines.map_values(|line: String| line@)
}

impl SpendingAccount {
    /// The lines to print for the addresses of the account, each given in its
    /// string encoding.
    pub fn print_address(&self, addresses: &Vec<String>) -> (lines: Vec<String>)
        ensures
            texts(lines@) == address_report(self@.policy.network, addresses@),
    {
        let mut lines: Vec<String> = Vec::new();
        if addresses.len() != 1 {
            lines.push("more or less than one address found".to_owned());
            assert(texts(lines@) =~= address_report(self@.policy.network, addresses@));
            return lines;
        }
        let plain: String = match plain_receiver_of(self.policy().network, addresses[0].as_str()) {
            Some(plain) => plain,
            None => "No transparent address available".to_owned(),
        };
        lines.push("\n========================================".to_owned());
        lines.push("YOUR WALLET ADDRESSES:".to_owned());
        lines.push("========================================".to_owned());
        lines.push("Unified (Shielded):".to_owned());
        lines.push(addresses[0].clone());
        lines.push("\nTransparent:".to_owned());
        lines.push(plain);
        lines.push("========================================\n".to_owned());
        assert(texts(lines@) =~= address_report(self@.policy.network, addresses@));
        lines
    }
}

} // verus!
