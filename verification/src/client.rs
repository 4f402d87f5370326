//! The client: where it connects to, the links it gives, and the steps of its operations.

use crate::error::{WalletError, WalletErrorView};
use crate::orchestrator::{
    deploy_step, failed_step, outcome_step, outcome_view, send_seqno, send_step,
    unexpected_step, SendAction, SendEvent, SendState,
};
use crate::types::{Network, TransactionResult, TransferParams};
use crate::wallet::Wallet;
use vstd::prelude::*;

verus! {

/// A client of one network.
pub struct WalletClient {
    network: Network,
    api_url: String,
}

/// A client as plain values.
pub struct WalletClientView {
    pub network: Network,
    pub api_url: Seq<char>,
}

impl View for WalletClient {
    type V = WalletClientView;

    closed spec fn view(&self) -> WalletClientView {
        WalletClientView { network: self.network, api_url: self.api_url@ }
    }
}

/// The error of an event that the state of an operation does not wait for.
fn unexpected_event() -> (e: WalletError)
    ensures
        e@ == WalletErrorView::Configuration("unexpected event"@),
{
    WalletError::Configuration(String::from_str("unexpected event"))
}

/// The end of an operation on an event that its state does not wait for.
fn unexpected(state: SendState) -> (r: (SendState, SendAction))
    ensures
        r.0@ == unexpected_step(state@).state,
        r.1@ == unexpected_step(state@).action,
{
    let next = match state {
        SendState::Confirmed => SendState::Confirmed,
        _ => SendState::Failed,
    };
    (next, SendAction::Finish { result: Err(unexpected_event()) })
}

/// The end of an operation with an error.
fn failed(error: WalletError) -> (r: (SendState, SendAction))
    ensures
        r.0@ == failed_step(error@).state,
        r.1@ == failed_step(error@).action,
{
    (SendState::Failed, SendAction::Finish { result: Err(error) })
}

/// The end of an operation on the answer of the Broadcast Service.
fn concluded(reply: Result<TransactionResult, WalletError>) -> (r: (SendState, SendAction))
    ensures
        r.0@ == outcome_step(outcome_view(reply)).state,
        r.1@ == outcome_step(outcome_view(reply)).action,
{
    let confirmed = match &reply {
        Ok(result) => result.success,
        Err(_) => false,
    };
    let next = if confirmed {
        SendState::Confirmed
    } else {
        SendState::Failed
    };
    (next, SendAction::Finish { result: reply })
}

impl WalletClient {
    /// The client of a network at an API endpoint.
    pub open spec fn connected(network: Network, api_url: Seq<char>) -> WalletClientView {
        WalletClientView { network, api_url }
    }

    /// A client of a network, at the network's own API endpoint.
    pub fn new(network: Network) -> (r: Result<Self, WalletError>)
        ensures
            r matches Ok(client) && client@ == Self::connected(network, network.api_endpoint_text()),
    {
        let api_url = String::from_str(network.api_endpoint());
        Ok(WalletClient { network, api_url })
    }

    /// A client of the test network at an endpoint of the caller's choice.
    pub fn with_custom_endpoint(endpoint: &str) -> (r: Result<Self, WalletError>)
        ensures
            r matches Ok(client) && client@ == Self::connected(Network::Testnet, endpoint@),
    {
        Ok(WalletClient { network: Network::Testnet, api_url: String::from_str(endpoint) })
    }

    /// The network of the client.
    pub fn network(&self) -> (r: Network)
        ensures
            r == self@.network,
    {
        self.network
    }

    /// The URL of the API endpoint.
    pub fn api_url(&self) -> (r: &str)
        ensures
            r@ == self@.api_url,
    {
        self.api_url.as_str()
    }

    /// The explorer's page of an address: the explorer's URL, `/address/`, and the address.
    pub fn explorer_link(&self, address: &str) -> (r: String)
        ensures
            r@ == self@.network.explorer_url_text() + "/address/"@ + address@,
    {
        let mut link = String::from_str(self.network.explorer_url());
        link.append("/address/");
        link.append(address);
        link
    }

    /// The explorer's page of a transaction: the explorer's URL, `/tx/`, and the hash.
    pub fn transaction_link(&self, hash: &str) -> (r: String)
        ensures
            r@ == self@.network.explorer_url_text() + "/tx/"@ + hash@,
    {
        let mut link = String::from_str(self.network.explorer_url());
        link.append("/tx/");
        link.append(hash);
        link
    }

    /// One step of sending a transfer from `wallet`: from the state and the event to the next
    /// state and the action that the driver is to perform. A send begins in `Idle` with the
    /// clock, and is over with the action `Finish`. The wallet changes in one step only: it
    /// takes the sequence number that the chain reported.
    pub fn send(
        &self,
        wallet: &mut Wallet,
        params: &TransferParams,
        state: SendState,
        event: SendEvent,
    ) -> (r: (SendState, SendAction))
        ensures
            r.0@ == send_step(old(wallet)@, params@, state@, event@).state,
            r.1@ == send_step(old(wallet)@, params@, state@, event@).action,
            final(wallet)@ == old(wallet)@.with_seqno(send_seqno(old(wallet)@, state@, event@)),
    {
        match (state, event) {
            (SendState::Idle, SendEvent::Clock { now }) => {
                if params.valid_until as u64 <= now {
                    failed(WalletError::TransactionExpired)
                } else {
                    (SendState::Idle, SendAction::QueryAccount { address: wallet.address().clone() })
                }
            },
            (SendState::Idle, SendEvent::AccountState { reply }) => match reply {
                Ok(account) => {
                    wallet.set_seqno(account.seqno);
                    (SendState::SeqnoRefreshed, SendAction::Proceed)
                },
                Err(error) => failed(error),
            },
            (SendState::SeqnoRefreshed, SendEvent::Clock { now }) => {
                match wallet.create_transfer_message(params) {
                    Ok(message) => (SendState::MessageBuilt { message }, SendAction::Proceed),
                    Err(error) => failed(error),
                }
            },
            (SendState::MessageBuilt { message }, SendEvent::Clock { now }) => {
                if message.valid_until as u64 <= now {
                    failed(WalletError::TransactionExpired)
                } else {
                    let hash = message.hash();
                    match wallet.sign(&hash) {
                        Ok(signature) => (
                            SendState::Signed { message, signature },
                            SendAction::Proceed,
                        ),
                        Err(error) => failed(error),
                    }
                }
            },
            (SendState::Signed { message, signature }, SendEvent::Clock { now }) => {
                let bytes = message.to_bytes();
                let hash = message.hash();
                (
                    SendState::Broadcast,
                    SendAction::Submit {
                        message: bytes,
                        signature,
                        pending: TransactionResult::pending(&hash),
                    },
                )
            },
            (SendState::Broadcast, SendEvent::Outcome { outcome }) => concluded(outcome),
            (state, _) => unexpected(state),
        }
    }

    /// One step of deploying the contract of `wallet` with an initial balance, where a
    /// deployment costs at least `minimum_cost`: from the state and the event to the next
    /// state and the action that the driver is to perform. A deploy begins in `Idle` with the
    /// clock, and is over with the action `Finish`.
    pub fn deploy(
        &self,
        wallet: &Wallet,
        initial_balance: u64,
        minimum_cost: u64,
        state: SendState,
        event: SendEvent,
    ) -> (r: (SendState, SendAction))
        ensures
            r.0@ == deploy_step(wallet@, initial_balance, minimum_cost, state@, event@).state,
            r.1@ == deploy_step(wallet@, initial_balance, minimum_cost, state@, event@).action,
    {
        match (state, event) {
            (SendState::Idle, SendEvent::Clock { now }) => {
                if initial_balance < minimum_cost {
                    failed(
                        WalletError::InsufficientBalance {
                            required: minimum_cost,
                            available: initial_balance,
                        },
                    )
                } else if !wallet.can_sign() {
                    failed(WalletError::SignatureError)
                } else {
                    (
                        SendState::Broadcast,
                        SendAction::SubmitDeployment {
                            address: wallet.address().clone(),
                            initial_balance,
                        },
                    )
                }
            },
            (SendState::Broadcast, SendEvent::Outcome { outcome }) => concluded(outcome),
            (state, _) => unexpected(state),
        }
    }
}

} // verus!
