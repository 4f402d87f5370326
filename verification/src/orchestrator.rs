//! The decisions of a send and of a deploy operation, as a state machine. The machine does no
//! outside work: each step takes the state and an event, and gives the next state and the
//! action that its driver is to perform before the next step.

use crate::crypto::{ed25519_signature, sha256};
use crate::error::{WalletError, WalletErrorView};
use crate::types::{
    Address, AddressView, TransactionResult, TransactionResultView, TransferParamsView,
    WalletState,
};
use crate::wallet::{TransferMessage, TransferMessageView, WalletView};
use vstd::prelude::*;

verus! {

/// Where an operation stands.
#[derive(Debug)]
pub enum SendState {
    /// Nothing has been learnt from the chain yet.
    Idle,
    /// The wallet's sequence number is the one the chain reported.
    SeqnoRefreshed,
    /// The transfer message is built.
    MessageBuilt { message: TransferMessage },
    /// The message is signed.
    Signed { message: TransferMessage, signature: [u8; 64] },
    /// The signed message is with the Broadcast Service.
    Broadcast,
    /// The Broadcast Service reported success.
    Confirmed,
    /// The operation ended without success.
    Failed,
}

/// What the driver hands to a step.
#[derive(Debug)]
pub enum SendEvent {
    /// No outside work was due; `now` is the current time in seconds since the unix epoch.
    Clock { now: u64 },
    /// The Chain Query Service answered, or could not be reached.
    AccountState { reply: Result<WalletState, WalletError> },
    /// The Broadcast Service answered, or could not be reached.
    Outcome { outcome: Result<TransactionResult, WalletError> },
}

/// What the driver is to do after a step.
#[derive(Debug)]
pub enum SendAction {
    /// Ask the Chain Query Service for the state of the account, and hand back its answer.
    QueryAccount { address: Address },
    /// Nothing outside: hand back the clock.
    Proceed,
    /// Hand the serialized message and its signature to the Broadcast Service, and hand back
    /// its answer. `pending` is the result as long as the service has not answered.
    Submit { message: Vec<u8>, signature: [u8; 64], pending: TransactionResult },
    /// Have the Broadcast Service deploy the account's contract with the initial balance, and
    /// hand back its answer.
    SubmitDeployment { address: Address, initial_balance: u64 },
    /// The operation is over, with this result.
    Finish { result: Result<TransactionResult, WalletError> },
}

/// A state as plain values.
pub enum SendStateView {
    Idle,
    SeqnoRefreshed,
    MessageBuilt { message: TransferMessageView },
    Signed { message: TransferMessageView, signature: Seq<u8> },
    Broadcast,
    Confirmed,
    Failed,
}

/// An event as plain values.
pub enum SendEventView {
    Clock { now: u64 },
    AccountState { reply: Result<WalletState, WalletErrorView> },
    Outcome { outcome: Result<TransactionResultView, WalletErrorView> },
}

/// An action as plain values.
pub enum SendActionView {
    QueryAccount { address: AddressView },
    Proceed,
    Submit { message: Seq<u8>, signature: Seq<u8>, pending: TransactionResultView },
    SubmitDeployment { address: AddressView, initial_balance: u64 },
    Finish { result: Result<TransactionResultView, WalletErrorView> },
}

/// The answer of the Chain Query Service as plain values.
pub open spec fn account_reply_view(reply: Result<WalletState, WalletError>) -> Result<
    WalletState,
    WalletErrorView,
> {
    match reply {
        Ok(account) => Ok(account),
        Err(error) => Err(error@),
    }
}

/// The answer of the Broadcast Service, or the result of an operation, as plain values.
pub open spec fn outcome_view(reply: Result<TransactionResult, WalletError>) -> Result<
    TransactionResultView,
    WalletErrorView,
> {
    match reply {
        Ok(result) => Ok(result@),
        Err(error) => Err(error@),
    }
}

impl View for SendState {
    type V = SendStateView;

    open spec fn view(&self) -> SendStateView {
        match self {
            SendState::Idle => SendStateView::Idle,
            SendState::SeqnoRefreshed => SendStateView::SeqnoRefreshed,
            SendState::MessageBuilt { message } => SendStateView::MessageBuilt {
                message: message@,
            },
            SendState::Signed { message, signature } => SendStateView::Signed {
                message: message@,
                signature: signature@,
            },
            SendState::Broadcast => SendStateView::Broadcast,
            SendState::Confirmed => SendStateView::Confirmed,
            SendState::Failed => SendStateView::Failed,
        }
    }
}

impl View for SendEvent {
    type V = SendEventView;

    open spec fn view(&self) -> SendEventView {
        match self {
            SendEvent::Clock { now } => SendEventView::Clock { now: *now },
            SendEvent::AccountState { reply } => SendEventView::AccountState {
                reply: account_reply_view(*reply),
            },
            SendEvent::Outcome { outcome } => SendEventView::Outcome {
                outcome: outcome_view(*outcome),
            },
        }
    }
}

impl View for SendAction {
    type V = SendActionView;

    open spec fn view(&self) -> SendActionView {
        match self {
            SendAction::QueryAccount { address } => SendActionView::QueryAccount {
                address: address@,
            },
            SendAction::Proceed => SendActionView::Proceed,
            SendAction::Submit { message, signature, pending } => SendActionView::Submit {
                message: message@,
                signature: signature@,
                pending: pending@,
            },
            SendAction::SubmitDeployment { address, initial_balance } => {
                SendActionView::SubmitDeployment {
                    address: address@,
                    initial_balance: *initial_balance,
                }
            },
            SendAction::Finish { result } => SendActionView::Finish {
                result: outcome_view(*result),
            },
        }
    }
}

/// What a step gives: the next state and the action for the driver.
pub struct SendStep {
    pub state: SendStateView,
    pub action: SendActionView,
}

/// Whether a message that is valid until `valid_until` has expired at `now`: it has unless its
/// expiry lies in the future.
pub open spec fn is_expired(valid_until: u32, now: u64) -> bool {
    valid_until <= now
}

/// The step that ends an operation with an error.
pub open spec fn failed_step(error: WalletErrorView) -> SendStep {
    SendStep { state: SendStateView::Failed, action: SendActionView::Finish { result: Err(error) } }
}

/// The step for an event that the state does not wait for: the operation ends with a
/// configuration error. An operation that was confirmed stays confirmed.
pub open spec fn unexpected_step(state: SendStateView) -> SendStep {
    SendStep {
        state: if state is Confirmed {
            SendStateView::Confirmed
        } else {
            SendStateView::Failed
        },
        action: SendActionView::Finish {
            result: Err(WalletErrorView::Configuration("unexpected event"@)),
        },
    }
}

/// The step on the answer of the Broadcast Service: the answer is the result of the operation,
/// unchanged, and the operation is confirmed where the service reports success.
pub open spec fn outcome_step(reply: Result<TransactionResultView, WalletErrorView>) -> SendStep {
    SendStep {
        state: match reply {
            Ok(result) => if result.success {
                SendStateView::Confirmed
            } else {
                SendStateView::Failed
            },
            Err(_) => SendStateView::Failed,
        },
        action: SendActionView::Finish { result: reply },
    }
}

/// One step of a send operation.
///
/// - Idle, on the clock: an expired transfer fails without any outside work; else the driver
///   is to query the chain for the wallet's address.
/// - Idle, on the chain's answer: the wallet takes the reported sequence number; a failure of
///   the query ends the operation with that error.
/// - SeqnoRefreshed: the message is built, which a wallet without key material is refused.
/// - MessageBuilt: a message that has expired by now is not signed; else it is hashed and
///   signed.
/// - Signed: the driver is to submit the serialized message with its signature.
/// - Broadcast, on the service's answer: the answer is passed on unchanged.
/// - Any other pairing of state and event ends the operation.
pub open spec fn send_step(
    wallet: WalletView,
    params: TransferParamsView,
    state: SendStateView,
    event: SendEventView,
) -> SendStep {
    match (state, event) {
        (SendStateView::Idle, SendEventView::Clock { now }) => if is_expired(
            params.valid_until,
            now,
        ) {
            failed_step(WalletErrorView::TransactionExpired)
        } else {
            SendStep {
                state: SendStateView::Idle,
                action: SendActionView::QueryAccount { address: wallet.address },
            }
        },
        (SendStateView::Idle, SendEventView::AccountState { reply }) => match reply {
            Ok(account) => SendStep {
                state: SendStateView::SeqnoRefreshed,
                action: SendActionView::Proceed,
            },
            Err(error) => failed_step(error),
        },
        (SendStateView::SeqnoRefreshed, SendEventView::Clock { now }) => {
            match wallet.transfer_message(params) {
                Ok(message) => SendStep {
                    state: SendStateView::MessageBuilt { message },
                    action: SendActionView::Proceed,
                    },
                Err(error) => failed_step(error),
            }
        },
        (SendStateView::MessageBuilt { message }, SendEventView::Clock { now }) => if is_expired(
            message.valid_until,
            now,
        ) {
            failed_step(WalletErrorView::TransactionExpired)
        } else {
            match wallet.signature(message.content_hash()) {
                Ok(signature) => SendStep {
                    state: SendStateView::Signed { message, signature },
                    action: SendActionView::Proceed,
                    },
                Err(error) => failed_step(error),
            }
        },
        (SendStateView::Signed { message, signature }, SendEventView::Clock { now }) => SendStep {
            state: SendStateView::Broadcast,
            action: SendActionView::Submit {
                message: message.canonical_bytes(),
                signature,
                pending: TransactionResult::pending_view(message.content_hash()),
            },
        },
        (SendStateView::Broadcast, SendEventView::Outcome { outcome }) => outcome_step(outcome),
        _ => unexpected_step(state),
    }
}

/// The sequence number that the wallet holds after a step of a send operation: the one that
/// the chain reported, in the step that takes the chain's answer, and in every other step the
/// one it held.
pub open spec fn send_seqno(wallet: WalletView, state: SendStateView, event: SendEventView) -> u32 {
    match (state, event) {
        (SendStateView::Idle, SendEventView::AccountState { reply: Ok(account) }) => account.seqno,
        _ => wallet.seqno,
    }
}

/// One step of a deploy operation. A deploy needs no sequence number from the chain.
///
/// - Idle, on the clock: an initial balance under the minimum cost of a deployment fails with
///   both amounts, and a wallet without key material is refused, both without any outside
///   work; else the driver is to submit the deployment.
/// - Broadcast, on the service's answer: the answer is passed on unchanged.
/// - Any other pairing of state and event ends the operation.
pub open spec fn deploy_step(
    wallet: WalletView,
    initial_balance: u64,
    minimum_cost: u64,
    state: SendStateView,
    event: SendEventView,
) -> SendStep {
    match (state, event) {
        (SendStateView::Idle, SendEventView::Clock { now }) => if initial_balance < minimum_cost {
            failed_step(
                WalletErrorView::InsufficientBalance {
                    required: minimum_cost,
                    available: initial_balance,
                },
            )
        } else if !wallet.can_sign() {
            failed_step(WalletErrorView::SignatureError)
        } else {
            SendStep {
                state: SendStateView::Broadcast,
                action: SendActionView::SubmitDeployment {
                    address: wallet.address,
                    initial_balance,
                },
            }
        },
        (SendStateView::Broadcast, SendEventView::Outcome { outcome }) => outcome_step(outcome),
        _ => unexpected_step(state),
    }
}

/// Expiry has its boundary at `now`: a transfer valid until one second ago has expired, and so
/// has one valid until this very second; one valid until the next second has not.
pub proof fn lemma_expiry_boundary(now: u64, valid_until: u32)
    ensures
        valid_until + 1 == now ==> is_expired(valid_until, now),
        valid_until == now ==> is_expired(valid_until, now),
        valid_until == now + 1 ==> !is_expired(valid_until, now),
{
}

/// An expired transfer is rejected as expired, and causes no outside work: neither when the
/// send begins, nor when its message is to be signed.
pub proof fn lemma_expired_transfer_is_rejected(
    wallet: WalletView,
    params: TransferParamsView,
    message: TransferMessageView,
    now: u64,
)
    ensures
        is_expired(params.valid_until, now) ==> send_step(
            wallet,
            params,
            SendStateView::Idle,
            SendEventView::Clock { now },
        ) == failed_step(WalletErrorView::TransactionExpired),
        is_expired(message.valid_until, now) ==> send_step(
            wallet,
            params,
            SendStateView::MessageBuilt { message },
            SendEventView::Clock { now },
        ) == failed_step(WalletErrorView::TransactionExpired),
{
}

/// A transfer that has not expired is accepted: the send begins with the query for the
/// wallet's address, and a wallet with key material signs the message.
pub proof fn lemma_fresh_transfer_is_accepted(
    wallet: WalletView,
    params: TransferParamsView,
    message: TransferMessageView,
    now: u64,
)
    ensures
        !is_expired(params.valid_until, now) ==> send_step(
            wallet,
            params,
            SendStateView::Idle,
            SendEventView::Clock { now },
        ) == (SendStep {
            state: SendStateView::Idle,
            action: SendActionView::QueryAccount { address: wallet.address },
        }),
        !is_expired(message.valid_until, now) && wallet.can_sign() ==> send_step(
            wallet,
            params,
            SendStateView::MessageBuilt { message },
            SendEventView::Clock { now },
        ).state is Signed,
{
}

/// A send never goes on with the sequence number that the wallet happened to hold: the
/// message that is built carries the number that the chain reported, and where the chain
/// could not be asked the send fails with the error of the query.
pub proof fn lemma_message_carries_reported_seqno(
    wallet: WalletView,
    params: TransferParamsView,
    account: WalletState,
    error: WalletErrorView,
    now: u64,
)
    ensures
        ({
            let event = SendEventView::AccountState { reply: Ok(account) };
            let refreshed = wallet.with_seqno(send_seqno(wallet, SendStateView::Idle, event));
            let next = send_step(wallet, params, SendStateView::Idle, event).state;
            let built = send_step(refreshed, params, next, SendEventView::Clock { now }).state;
            wallet.can_sign() ==> built == SendStateView::MessageBuilt {
                message: TransferMessageView::built(account.seqno, params),
            }
        }),
        send_step(
            wallet,
            params,
            SendStateView::Idle,
            SendEventView::AccountState { reply: Err(error) },
        ) == failed_step(error),
{
}

/// A wallet without key material never gets a message built, signed or submitted: the send
/// fails as unauthorized where the message was to be built, and the deploy where it begins.
pub proof fn lemma_unauthorized_wallet_is_stopped(
    wallet: WalletView,
    params: TransferParamsView,
    initial_balance: u64,
    minimum_cost: u64,
    now: u64,
)
    requires
        !wallet.can_sign(),
    ensures
        send_step(wallet, params, SendStateView::SeqnoRefreshed, SendEventView::Clock { now })
            == failed_step(WalletErrorView::SignatureError),
        initial_balance >= minimum_cost ==> deploy_step(
            wallet,
            initial_balance,
            minimum_cost,
            SendStateView::Idle,
            SendEventView::Clock { now },
        ) == failed_step(WalletErrorView::SignatureError),
{
}

/// What is handed to the Broadcast Service is the canonical serialization of the message that
/// was signed, with that signature; and nothing is handed to it from any other state.
pub proof fn lemma_submit_only_what_was_signed(
    wallet: WalletView,
    params: TransferParamsView,
    state: SendStateView,
    event: SendEventView,
)
    ensures
        send_step(wallet, params, state, event).action is Submit ==> (state matches SendStateView::Signed {
            message,
            signature,
        } && send_step(wallet, params, state, event) == (SendStep {
            state: SendStateView::Broadcast,
            action: SendActionView::Submit {
                message: message.canonical_bytes(),
                signature,
                pending: TransactionResult::pending_view(message.content_hash()),
            },
        })),
{
}

/// A deploy with an initial balance under the minimum cost fails with both amounts, and no
/// outside work is asked for.
pub proof fn lemma_deploy_needs_minimum_balance(
    wallet: WalletView,
    initial_balance: u64,
    minimum_cost: u64,
    now: u64,
)
    requires
        initial_balance < minimum_cost,
    ensures
        deploy_step(
            wallet,
            initial_balance,
            minimum_cost,
            SendStateView::Idle,
            SendEventView::Clock { now },
        ) == failed_step(
            WalletErrorView::InsufficientBalance {
                required: minimum_cost,
                available: initial_balance,
            },
        ),
{
}

/// Where a send stands after a sequence of events: the wallet as the steps left it, the state,
/// and the sequence number that the chain last reported, if it reported one.
pub struct SendRun {
    pub wallet: WalletView,
    pub state: SendStateView,
    pub reported: Option<u32>,
}

/// The run of a send of `params` from `wallet` over a sequence of events, begun in `Idle`.
pub open spec fn send_run(
    wallet: WalletView,
    params: TransferParamsView,
    events: Seq<SendEventView>,
) -> SendRun
    decreases events.len(),
{
    if events.len() == 0 {
        SendRun { wallet, state: SendStateView::Idle, reported: None }
    } else {
        let before = send_run(wallet, params, events.drop_last());
        let event = events.last();
        SendRun {
            wallet: before.wallet.with_seqno(send_seqno(before.wallet, before.state, event)),
            state: send_step(before.wallet, params, before.state, event).state,
            reported: match (before.state, event) {
                (SendStateView::Idle, SendEventView::AccountState { reply: Ok(account) }) => Some(
                    account.seqno,
                ),
                _ => before.reported,
            },
        }
    }
}

/// What holds of a send at every point of its run: from the moment the chain has reported,
/// the wallet holds the reported sequence number; a message that is built is the one of that
/// number and the parameters; and a signature that is held is the wallet's own signature of
/// that message's content hash.
pub open spec fn send_run_consistent(params: TransferParamsView, run: SendRun) -> bool {
    match run.state {
        SendStateView::SeqnoRefreshed => run.reported == Some(run.wallet.seqno),
        SendStateView::MessageBuilt { message } => {
            &&& run.reported == Some(run.wallet.seqno)
            &&& run.wallet.can_sign()
            &&& message == TransferMessageView::built(run.wallet.seqno, params)
        },
        SendStateView::Signed { message, signature } => {
            &&& run.reported == Some(run.wallet.seqno)
            &&& run.wallet.can_sign()
            &&& message == TransferMessageView::built(run.wallet.seqno, params)
            &&& run.wallet.signature(message.content_hash()) == Ok::<Seq<u8>, WalletErrorView>(
                signature,
            )
        },
        _ => true,
    }
}

/// Every run of a send is consistent, whatever events it is fed.
pub proof fn lemma_send_run_is_consistent(
    wallet: WalletView,
    params: TransferParamsView,
    events: Seq<SendEventView>,
)
    ensures
        send_run_consistent(params, send_run(wallet, params, events)),
        send_run(wallet, params, events).wallet.address == wallet.address,
        send_run(wallet, params, events).wallet.key_pair == wallet.key_pair,
    decreases events.len(),
{
    if events.len() > 0 {
        lemma_send_run_is_consistent(wallet, params, events.drop_last());
    }
}

/// Whatever a run of a send hands to the Broadcast Service is the serialization of the message
/// of the given parameters at the sequence number that the chain reported in this run, with
/// the signature that the wallet's secret key gives to its content hash. A send that was not
/// told a sequence number by the chain, or whose wallet holds no key material, hands over
/// nothing.
pub proof fn lemma_submitted_message_is_fresh_and_signed(
    wallet: WalletView,
    params: TransferParamsView,
    events: Seq<SendEventView>,
    event: SendEventView,
)
    ensures
        ({
            let run = send_run(wallet, params, events);
            send_step(run.wallet, params, run.state, event).action matches SendActionView::Submit {
                message,
                signature,
                pending,
            } ==> {
                &&& run.reported matches Some(seqno)
                &&& wallet.key_pair matches Some(keys)
                &&& message == TransferMessageView::built(seqno, params).canonical_bytes()
                &&& signature == ed25519_signature(keys.secret_key, sha256(message))
            }
        }),
{
    lemma_send_run_is_consistent(wallet, params, events);
}

/// An operation that is over stays over: from `Confirmed` and from `Failed` every event leads
/// back to the same state, and the action is `Finish`.
pub proof fn lemma_ended_operation_stays_ended(
    wallet: WalletView,
    params: TransferParamsView,
    initial_balance: u64,
    minimum_cost: u64,
    state: SendStateView,
    event: SendEventView,
)
    requires
        state is Confirmed || state is Failed,
    ensures
        send_step(wallet, params, state, event) == unexpected_step(state),
        deploy_step(wallet, initial_balance, minimum_cost, state, event) == unexpected_step(state),
        unexpected_step(state).state == state,
        unexpected_step(state).action is Finish,
{
}

/// The answer of the Broadcast Service is the result of the operation, unchanged, for a send
/// and for a deploy.
pub proof fn lemma_outcome_is_passed_on(
    wallet: WalletView,
    params: TransferParamsView,
    initial_balance: u64,
    minimum_cost: u64,
    outcome: Result<TransactionResultView, WalletErrorView>,
)
    ensures
        send_step(wallet, params, SendStateView::Broadcast, SendEventView::Outcome { outcome }).action
            == (SendActionView::Finish { result: outcome }),
        deploy_step(
            wallet,
            initial_balance,
            minimum_cost,
            SendStateView::Broadcast,
            SendEventView::Outcome { outcome },
        ).action == (SendActionView::Finish { result: outcome }),
{
}

} // verus!
