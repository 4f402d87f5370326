use ton_wallet_client::cli::parse_network;
use ton_wallet_client::Network;

fn args(words: &[&str]) -> Vec<String> {
    words.iter().map(|word| word.to_string()).collect()
}

#[test]
fn network_names_in_any_case() {
    assert_eq!(Network::from_name("mainnet"), Some(Network::Mainnet));
    assert_eq!(Network::from_name("testnet"), Some(Network::Testnet));
    assert_eq!(Network::from_name("MAINNET"), Some(Network::Mainnet));
    assert_eq!(Network::from_name("TestNet"), Some(Network::Testnet));
    assert_eq!(Network::from_name(""), None);
    assert_eq!(Network::from_name("main"), None);
    assert_eq!(Network::from_name("mainnet "), None);
    assert_eq!(Network::from_name("mainnets"), None);
    assert_eq!(Network::from_name("devnet"), None);
    assert_eq!(Network::from_name("MA\u{130}NNET"), None);
}

#[test]
fn network_names_agree_with_lower_casing() {
    for name in ["mainnet", "MainNet", "TESTNET", "tEsTnEt", "x", "", "MAİNNET", "testneT ", "ﬆ"] {
        let expected = match name.to_lowercase().as_str() {
            "mainnet" => Some(Network::Mainnet),
            "testnet" => Some(Network::Testnet),
            _ => None,
        };
        assert_eq!(Network::from_name(name), expected, "{:?}", name);
    }
}

#[test]
fn arguments_without_a_network_choose_the_test_network() {
    assert_eq!(parse_network(&args(&[])), Network::Testnet);
    assert_eq!(parse_network(&args(&["wallet-cli"])), Network::Testnet);
    assert_eq!(parse_network(&args(&["wallet-cli", "balance", "EQD"])), Network::Testnet);
    assert_eq!(parse_network(&args(&["wallet-cli", "--network"])), Network::Testnet);
    assert_eq!(parse_network(&args(&["wallet-cli", "--network", "devnet"])), Network::Testnet);
    assert_eq!(parse_network(&args(&["wallet-cli", "--Network", "mainnet"])), Network::Testnet);
    assert_eq!(parse_network(&args(&["mainnet", "--network"])), Network::Testnet);
}

#[test]
fn first_named_network_is_chosen() {
    assert_eq!(
        parse_network(&args(&["wallet-cli", "balance", "EQD", "--network", "mainnet"])),
        Network::Mainnet
    );
    assert_eq!(parse_network(&args(&["--network", "MAINNET"])), Network::Mainnet);
    assert_eq!(
        parse_network(&args(&["x", "--network", "testnet", "--network", "mainnet"])),
        Network::Testnet
    );
    assert_eq!(
        parse_network(&args(&["x", "--network", "mainnet", "--network", "testnet"])),
        Network::Mainnet
    );
    assert_eq!(
        parse_network(&args(&["x", "--network", "other", "--network", "mainnet"])),
        Network::Mainnet
    );
    assert_eq!(
        parse_network(&args(&["x", "--network", "--network", "mainnet"])),
        Network::Mainnet
    );
}
