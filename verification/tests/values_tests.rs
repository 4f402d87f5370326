use std::time::{SystemTime, UNIX_EPOCH};
use ton_wallet_client::wallet::WalletBuilder;
use ton_wallet_client::{
    Address, KeyPair, Network, TransactionResult, TransferParams, Wallet, WalletClient,
    WalletError, WalletState,
};

#[test]
fn explorer_urls_of_the_networks() {
    assert_eq!(Network::Mainnet.explorer_url(), "https://tonscan.org");
    assert_eq!(Network::Testnet.explorer_url(), "https://testnet.tonscan.org");
}

#[test]
fn client_of_a_network_uses_its_endpoint() {
    let main = WalletClient::new(Network::Mainnet).unwrap();
    assert_eq!(main.network(), Network::Mainnet);
    assert_eq!(main.api_url(), "https://toncenter.com/api/v2");
    let test = WalletClient::new(Network::Testnet).unwrap();
    assert_eq!(test.api_url(), "https://testnet.toncenter.com/api/v2");
}

#[test]
fn client_of_a_custom_endpoint_is_on_the_test_network() {
    let client = WalletClient::with_custom_endpoint("http://localhost:8081/api").unwrap();
    assert_eq!(client.network(), Network::Testnet);
    assert_eq!(client.api_url(), "http://localhost:8081/api");
}

#[test]
fn links_are_url_path_and_subject() {
    let main = WalletClient::new(Network::Mainnet).unwrap();
    assert_eq!(main.explorer_link("EQDtest"), "https://tonscan.org/address/EQDtest");
    assert_eq!(main.transaction_link("abc123"), "https://tonscan.org/tx/abc123");
    let test = WalletClient::new(Network::Testnet).unwrap();
    assert_eq!(test.explorer_link(""), "https://testnet.tonscan.org/address/");
    assert_eq!(test.transaction_link("ff"), "https://testnet.tonscan.org/tx/ff");
    let custom = WalletClient::with_custom_endpoint("x").unwrap();
    assert_eq!(custom.explorer_link("0:00"), "https://testnet.tonscan.org/address/0:00");
}

#[test]
fn new_parameters_have_the_defaults() {
    let before = SystemTime::now().duration_since(UNIX_EPOCH).unwrap().as_secs();
    let params = TransferParams::new(Address::new([4u8; 32], 0), 5);
    let after = SystemTime::now().duration_since(UNIX_EPOCH).unwrap().as_secs();
    assert_eq!(params.to.raw, [4u8; 32]);
    assert_eq!(params.amount, 5);
    assert_eq!(params.comment, None);
    assert_eq!(params.send_mode, 3);
    assert!(before + 60 <= params.valid_until as u64);
    assert!(params.valid_until as u64 <= after + 60);
}

#[test]
fn parameters_made_at_a_time_expire_sixty_seconds_later() {
    let to = Address::new([4u8; 32], -1);
    assert_eq!(TransferParams::new_at(to.clone(), 1, 0).valid_until, 60);
    assert_eq!(TransferParams::new_at(to.clone(), 1, 1_700_000_000).valid_until, 1_700_000_060);
    assert_eq!(
        TransferParams::new_at(to.clone(), 1, u32::MAX as u64 - 60).valid_until,
        u32::MAX
    );
    assert_eq!(
        TransferParams::new_at(to.clone(), 1, u32::MAX as u64 - 59).valid_until,
        u32::MAX
    );
    assert_eq!(TransferParams::new_at(to.clone(), 1, u64::MAX).valid_until, u32::MAX);
    let params = TransferParams::new_at(to, 9, 100);
    assert_eq!(params.amount, 9);
    assert_eq!(params.send_mode, 3);
    assert_eq!(params.comment, None);
    assert_eq!(params.to.workchain, -1);
}

#[test]
fn builders_change_one_field_each() {
    let base = TransferParams::new_at(Address::new([4u8; 32], 0), 5, 100);
    let commented = base.clone().with_comment("note");
    assert_eq!(commented.comment, Some("note".to_string()));
    assert_eq!(commented.send_mode, 3);
    assert_eq!(commented.valid_until, 160);
    assert_eq!(commented.amount, 5);
    let mode = base.clone().with_send_mode(128);
    assert_eq!(mode.send_mode, 128);
    assert_eq!(mode.comment, None);
    assert_eq!(mode.valid_until, 160);
    let expiry = base.clone().with_valid_until(7);
    assert_eq!(expiry.valid_until, 7);
    assert_eq!(expiry.send_mode, 3);
    assert_eq!(expiry.to.raw, [4u8; 32]);
    let twice = base.with_comment("a").with_comment("b");
    assert_eq!(twice.comment, Some("b".to_string()));
}

#[test]
fn key_pair_keeps_both_halves() {
    let keys = KeyPair::new([2u8; 32], [3u8; 32]);
    assert_eq!(keys.secret_key, [2u8; 32]);
    assert_eq!(keys.public_key, [3u8; 32]);
    let copy = keys.clone();
    assert_eq!(copy.secret_key, keys.secret_key);
    assert_eq!(copy.public_key, keys.public_key);
}

#[test]
fn public_key_in_hexadecimal() {
    let mut public = [0u8; 32];
    for (i, byte) in public.iter_mut().enumerate() {
        *byte = 0xf0 + (i as u8 % 16);
    }
    let keys = KeyPair::new([2u8; 32], public);
    assert_eq!(
        keys.public_key_hex(),
        "f0f1f2f3f4f5f6f7f8f9fafbfcfdfefff0f1f2f3f4f5f6f7f8f9fafbfcfdfeff"
    );
    assert_eq!(KeyPair::new([2u8; 32], [0u8; 32]).public_key_hex(), "00".repeat(32));
}

#[test]
fn debug_text_of_key_material_hides_the_secret() {
    let keys = KeyPair::new([0xabu8; 32], [0x01u8; 32]);
    let text = keys.debug_string();
    assert_eq!(
        text,
        format!(
            "KeyPair {{ public_key: \"{}\", secret_key: \"[REDACTED]\" }}",
            "01".repeat(32)
        )
    );
    assert!(!text.contains("abab"));
}

#[test]
fn wallet_keeps_address_and_sequence_number() {
    let address = Address::new([1u8; 32], -1);
    let mut wallet = Wallet::new(address.clone(), None);
    assert_eq!(wallet.address().raw, address.raw);
    assert_eq!(wallet.address().workchain, -1);
    assert_eq!(wallet.address().friendly, address.friendly);
    assert_eq!(wallet.seqno(), 0);
    wallet.set_seqno(5);
    assert_eq!(wallet.seqno(), 5);
    wallet.set_seqno(u32::MAX);
    assert_eq!(wallet.seqno(), u32::MAX);
    assert_eq!(wallet.address().raw, address.raw);
    assert!(!wallet.can_sign());
    assert_eq!(wallet.public_key(), None);
}

#[test]
fn builder_without_key_pair_builds_a_read_only_wallet() {
    let wallet = WalletBuilder::new().address(Address::new([1u8; 32], 0)).build().unwrap();
    assert!(!wallet.can_sign());
    assert_eq!(wallet.seqno(), 0);
    assert_eq!(wallet.address().raw, [1u8; 32]);
}

#[test]
fn builder_without_address_gives_a_configuration_error() {
    let result = WalletBuilder::default().key_pair(KeyPair::new([2u8; 32], [3u8; 32])).build();
    match result {
        Err(WalletError::Configuration(reason)) => assert_eq!(reason, "Wallet address is required"),
        Err(other) => panic!("another error: {:?}", other),
        Ok(_) => panic!("built without an address"),
    }
}

#[test]
fn builder_keeps_the_last_address_and_the_key_pair() {
    let wallet = WalletBuilder::new()
        .address(Address::new([1u8; 32], 0))
        .key_pair(KeyPair::new([2u8; 32], [3u8; 32]))
        .address(Address::new([7u8; 32], 0))
        .build()
        .unwrap();
    assert_eq!(wallet.address().raw, [7u8; 32]);
    assert_eq!(wallet.public_key(), Some(&[3u8; 32]));
}

#[test]
fn pending_result_has_the_hash_in_hexadecimal() {
    let result = TransactionResult::pending(&[0x0fu8; 32]);
    assert_eq!(result.hash, "0f".repeat(32));
    assert_eq!(result.lt, 0);
    assert_eq!(result.fee, 0);
    assert!(result.success);
    assert_eq!(result.error, None);
    let copy = result.clone();
    assert_eq!(copy.hash, result.hash);
}

#[test]
fn account_state_is_a_plain_value() {
    let state = WalletState { balance: 7, seqno: 3, is_deployed: true, last_transaction_lt: Some(9) };
    let copy = state;
    assert_eq!(copy.balance, state.balance);
    assert_eq!(copy.seqno, 3);
    assert!(copy.is_deployed);
    assert_eq!(copy.last_transaction_lt, Some(9));
}

#[test]
fn invalid_address_error_carries_the_reason() {
    match WalletError::invalid_address("why") {
        WalletError::InvalidAddress(reason) => assert_eq!(reason, "why"),
        other => panic!("another error: {:?}", other),
    }
}
