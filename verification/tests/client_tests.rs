use ton_wallet_client::{Network, WalletClient};

#[test]
fn test_client_creation() {
    let client = WalletClient::new(Network::Testnet).unwrap();
    assert_eq!(client.network(), Network::Testnet);
    assert!(client.api_url().contains("testnet"));
}

#[test]
fn test_explorer_links() {
    let client = WalletClient::new(Network::Testnet).unwrap();
    let link = client.explorer_link("EQDtest");
    assert!(link.contains("testnet.tonscan.org"));
    assert!(link.contains("EQDtest"));
}
