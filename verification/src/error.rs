//! The errors of wallet operations.

use crate::codec::{decimal_digits, format_u64};
use vstd::prelude::*;

verus! {

/// What can go wrong in a wallet operation.
#[derive(Debug)]
pub enum WalletError {
    /// A collaborator on the network could not be reached or failed.
    Network(String),
    /// A text is not an address; the reason is given.
    InvalidAddress(String),
    /// A signing operation was asked of a wallet that holds no key material.
    SignatureError,
    /// The balance does not cover what the operation needs.
    InsufficientBalance { required: u64, available: u64 },
    /// The sequence number is not the one the account expects.
    InvalidSeqno { expected: u32, actual: u32 },
    /// The message was no longer valid when it was to be signed.
    TransactionExpired,
    /// No contract is deployed at the address.
    ContractNotDeployed(String),
    /// Key material could not be produced.
    KeyGeneration(String),
    /// A value could not be encoded or decoded.
    Serialization(String),
    /// An error of the underlying SDK.
    TonSdk(String),
    /// The configuration is incomplete or inconsistent.
    Configuration(String),
}

/// A wallet error with its texts as character sequences.
pub enum WalletErrorView {
    Network(Seq<char>),
    InvalidAddress(Seq<char>),
    SignatureError,
    InsufficientBalance { required: u64, available: u64 },
    InvalidSeqno { expected: u32, actual: u32 },
    TransactionExpired,
    ContractNotDeployed(Seq<char>),
    KeyGeneration(Seq<char>),
    Serialization(Seq<char>),
    TonSdk(Seq<char>),
    Configuration(Seq<char>),
}

impl View for WalletError {
    type V = WalletErrorView;

    open spec fn view(&self) -> WalletErrorView {
        match self {
            WalletError::Network(s) => WalletErrorView::Network(s@),
            WalletError::InvalidAddress(s) => WalletErrorView::InvalidAddress(s@),
            WalletError::SignatureError => WalletErrorView::SignatureError,
            WalletError::InsufficientBalance { required, available } => {
                WalletErrorView::InsufficientBalance { required: *required, available: *available }
            },
            WalletError::InvalidSeqno { expected, actual } => WalletErrorView::InvalidSeqno {
                expected: *expected,
                actual: *actual,
            },
            WalletError::TransactionExpired => WalletErrorView::TransactionExpired,
            WalletError::ContractNotDeployed(s) => WalletErrorView::ContractNotDeployed(s@),
            WalletError::KeyGeneration(s) => WalletErrorView::KeyGeneration(s@),
            WalletError::Serialization(s) => WalletErrorView::Serialization(s@),
            WalletError::TonSdk(s) => WalletErrorView::TonSdk(s@),
            WalletError::Configuration(s) => WalletErrorView::Configuration(s@),
        }
    }
}

impl WalletErrorView {
    /// The message of an error, for people to read.
    pub open spec fn message(self) -> Seq<char> {
        match self {
            WalletErrorView::Network(reason) => "Network error: "@ + reason,
            WalletErrorView::InvalidAddress(reason) => "Invalid address format: "@ + reason,
            WalletErrorView::SignatureError => "Signature verification failed"@,
            WalletErrorView::InsufficientBalance { required, available } => {
                "Insufficient balance: required "@ + decimal_digits(required as nat)
                    + ", available "@ + decimal_digits(available as nat)
            },
            WalletErrorView::InvalidSeqno { expected, actual } => {
                "Invalid sequence number: expected "@ + decimal_digits(expected as nat)
                    + ", got "@ + decimal_digits(actual as nat)
            },
            WalletErrorView::TransactionExpired => "Transaction expired"@,
            WalletErrorView::ContractNotDeployed(address) => {
                "Contract not deployed at address: "@ + address
            },
            WalletErrorView::KeyGeneration(reason) => "Key generation error: "@ + reason,
            WalletErrorView::Serialization(reason) => "Serialization error: "@ + reason,
            WalletErrorView::TonSdk(reason) => "TON SDK error: "@ + reason,
            WalletErrorView::Configuration(reason) => "Configuration error: "@ + reason,
        }
    }
}

/// A prefix followed by a text.
fn prefixed(prefix: &str, text: &str) -> (r: String)
    ensures
        r@ == prefix@ + text@,
{
    let mut out = String::from_str(prefix);
    out.append(text);
    out
}

/// Two numbers in decimal, each after its own prefix.
fn two_numbers(first_prefix: &str, first: u64, second_prefix: &str, second: u64) -> (r: String)
    ensures
        r@ == first_prefix@ + decimal_digits(first as nat) + second_prefix@ + decimal_digits(
            second as nat,
        ),
{
    let mut out = String::from_str(first_prefix);
    out.append(format_u64(first).as_str());
    out.append(second_prefix);
    out.append(format_u64(second).as_str());
    out
}

impl WalletError {
    /// The message of the error, for people to read.
    pub fn to_string(&self) -> (r: String)
        ensures
            r@ == self@.message(),
    {
        match self {
            WalletError::Network(reason) => prefixed("Network error: ", reason.as_str()),
            WalletError::InvalidAddress(reason) => prefixed(
                "Invalid address format: ",
                reason.as_str(),
            ),
            WalletError::SignatureError => String::from_str("Signature verification failed"),
            WalletError::InsufficientBalance { required, available } => two_numbers(
                "Insufficient balance: required ",
                *required,
                ", available ",
                *available,
            ),
            WalletError::InvalidSeqno { expected, actual } => two_numbers(
                "Invalid sequence number: expected ",
                *expected as u64,
                ", got ",
                *actual as u64,
            ),
            WalletError::TransactionExpired => String::from_str("Transaction expired"),
            WalletError::ContractNotDeployed(address) => prefixed(
                "Contract not deployed at address: ",
                address.as_str(),
            ),
            WalletError::KeyGeneration(reason) => prefixed(
                "Key generation error: ",
                reason.as_str(),
            ),
            WalletError::Serialization(reason) => prefixed(
                "Serialization error: ",
                reason.as_str(),
            ),
            WalletError::TonSdk(reason) => prefixed("TON SDK error: ", reason.as_str()),
            WalletError::Configuration(reason) => prefixed(
                "Configuration error: ",
                reason.as_str(),
            ),
        }
    }

    /// The error for a text that is not an address, with the reason.
    pub fn invalid_address(reason: &str) -> (e: WalletError)
        ensures
            e@ == WalletErrorView::InvalidAddress(reason@),
    {
        WalletError::InvalidAddress(String::from_str(reason))
    }
}

} // verus!
