use wallet_core::account::SpendingAccount;

const PHRASE: &str =
    "abandon abandon abandon abandon abandon abandon abandon abandon abandon abandon abandon about";

const RULE: &str = "========================================";

fn unified_address(request: zcash_keys::keys::UnifiedAddressRequest) -> zcash_keys::address::UnifiedAddress {
    let seed = bip0039::Mnemonic::<bip0039::English>::from_phrase(PHRASE).unwrap().to_seed("");
    let network = zcash_protocol::consensus::TEST_NETWORK;
    zcash_keys::keys::UnifiedSpendingKey::from_seed(&network, &seed, zip32::AccountId::ZERO)
        .unwrap()
        .to_unified_full_viewing_key()
        .default_address(request)
        .unwrap()
        .0
}

#[test]
fn one_address_is_shown_with_its_plain_receiver() {
    let network = zcash_protocol::consensus::TEST_NETWORK;
    let address = unified_address(zcash_keys::keys::UnifiedAddressRequest::ALLOW_ALL);
    let unified = address.encode(&network);
    let plain =
        zcash_keys::address::Address::Transparent(*address.transparent().unwrap()).encode(&network);
    let account = SpendingAccount::new(PHRASE).unwrap();
    let lines = account.print_address(&vec![unified.clone()]);
    assert_eq!(
        lines,
        vec![
            format!("\n{}", RULE),
            String::from("YOUR WALLET ADDRESSES:"),
            String::from(RULE),
            String::from("Unified (Shielded):"),
            unified,
            String::from("\nTransparent:"),
            plain,
            format!("{}\n", RULE),
        ]
    );
}

#[test]
fn an_address_without_plain_receiver_says_so() {
    let network = zcash_protocol::consensus::TEST_NETWORK;
    let unified = unified_address(zcash_keys::keys::UnifiedAddressRequest::SHIELDED).encode(&network);
    let account = SpendingAccount::new(PHRASE).unwrap();
    let lines = account.print_address(&vec![unified.clone()]);
    assert_eq!(lines.len(), 8);
    assert_eq!(lines[4], unified);
    assert_eq!(lines[6], "No transparent address available");
}

#[test]
fn none_or_several_addresses_give_one_line() {
    let account = SpendingAccount::new(PHRASE).unwrap();
    let one_line = vec![String::from("more or less than one address found")];
    assert_eq!(account.print_address(&vec![]), one_line);
    assert_eq!(account.print_address(&vec![String::from("a"), String::from("b")]), one_line);
}
