use ton_wallet_client::codec::format_u64;
use ton_wallet_client::WalletError;

#[test]
fn unsigned_numbers_in_decimal() {
    assert_eq!(format_u64(0), "0");
    assert_eq!(format_u64(9), "9");
    assert_eq!(format_u64(10), "10");
    assert_eq!(format_u64(1_000_000_000), "1000000000");
    assert_eq!(format_u64(u64::MAX), "18446744073709551615");
    for n in [1u64, 42, 99, 100, 101, 65_535, 4_294_967_295, 10_000_000_000_000_000_000] {
        assert_eq!(format_u64(n), n.to_string());
    }
}

#[test]
fn messages_of_the_errors() {
    let text = |s: &str| s.to_string();
    assert_eq!(WalletError::Network(text("timeout")).to_string(), "Network error: timeout");
    assert_eq!(
        WalletError::InvalidAddress(text("Invalid workchain")).to_string(),
        "Invalid address format: Invalid workchain"
    );
    assert_eq!(WalletError::SignatureError.to_string(), "Signature verification failed");
    assert_eq!(
        WalletError::InsufficientBalance { required: 50_000_000, available: 0 }.to_string(),
        "Insufficient balance: required 50000000, available 0"
    );
    assert_eq!(
        WalletError::InsufficientBalance { required: u64::MAX, available: 1 }.to_string(),
        "Insufficient balance: required 18446744073709551615, available 1"
    );
    assert_eq!(
        WalletError::InvalidSeqno { expected: 5, actual: 4_294_967_295 }.to_string(),
        "Invalid sequence number: expected 5, got 4294967295"
    );
    assert_eq!(WalletError::TransactionExpired.to_string(), "Transaction expired");
    assert_eq!(
        WalletError::ContractNotDeployed(text("0:00")).to_string(),
        "Contract not deployed at address: 0:00"
    );
    assert_eq!(
        WalletError::KeyGeneration(text("no entropy")).to_string(),
        "Key generation error: no entropy"
    );
    assert_eq!(
        WalletError::Serialization(text("bad cell")).to_string(),
        "Serialization error: bad cell"
    );
    assert_eq!(WalletError::TonSdk(text("x")).to_string(), "TON SDK error: x");
    assert_eq!(
        WalletError::Configuration(text("Wallet address is required")).to_string(),
        "Configuration error: Wallet address is required"
    );
    assert_eq!(WalletError::Network(String::new()).to_string(), "Network error: ");
}
