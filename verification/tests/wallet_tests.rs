use ton_wallet_client::wallet::{TransferMessage, WalletBuilder};
use ton_wallet_client::{Address, KeyPair, Wallet};

#[test]
fn test_wallet_creation() {
    let address = Address::new([1u8; 32], 0);
    let wallet = Wallet::read_only(address);

    assert!(!wallet.can_sign());
    assert_eq!(wallet.seqno(), 0);
}

#[test]
fn test_wallet_with_keypair() {
    let address = Address::new([1u8; 32], 0);
    let key_pair = KeyPair::new([2u8; 32], [3u8; 32]);
    let wallet = Wallet::new(address, Some(key_pair));

    assert!(wallet.can_sign());
    assert_eq!(wallet.public_key(), Some(&[3u8; 32]));
}

#[test]
fn test_transfer_message_serialization() {
    let destination = Address::new([0u8; 32], 0);
    let msg = TransferMessage {
        seqno: 1,
        valid_until: 1699999999,
        send_mode: 3,
        destination,
        amount: 1_000_000_000,
        comment: Some("Test".to_string()),
    };

    let bytes = msg.to_bytes();
    assert!(!bytes.is_empty());

    // Verify structure
    assert_eq!(&bytes[0..4], &1u32.to_be_bytes()); // seqno
    assert_eq!(&bytes[4..8], &1699999999u32.to_be_bytes()); // valid_until
    assert_eq!(bytes[8], 3); // send_mode
}

#[test]
fn test_wallet_builder() {
    let address = Address::new([1u8; 32], 0);
    let key_pair = KeyPair::new([2u8; 32], [3u8; 32]);

    let wallet = WalletBuilder::new()
        .address(address)
        .key_pair(key_pair)
        .build()
        .unwrap();

    assert!(wallet.can_sign());
}

#[test]
fn test_wallet_builder_missing_address() {
    let result = WalletBuilder::new().build();
    assert!(result.is_err());
}
