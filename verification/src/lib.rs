//! Addresses, transfer messages and signing for wallet accounts on the TON blockchain.

pub mod cli;
pub mod client;
pub mod codec;
pub mod crypto;
pub mod error;
pub mod orchestrator;
pub mod types;
pub mod wallet;

pub use client::WalletClient;
pub use error::WalletError;
pub use types::{Address, KeyPair, Network, TransactionResult, TransferParams, WalletState};
pub use wallet::Wallet;
