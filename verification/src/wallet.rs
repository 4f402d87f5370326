//! Wallets and the transfer messages that they build and sign.

use crate::codec::{i8_to_byte, signed_as_byte};
use crate::crypto::{ed25519_sign, ed25519_signature, sha256, sha256_digest};
use crate::error::{WalletError, WalletErrorView};
use crate::types::{
    clone_option_text, option_text, Address, AddressView, KeyPair, KeyPairView, TransferParams,
    TransferParamsView,
};
use vstd::prelude::*;

verus! {

/// The four bytes of a 32-bit number, most significant first.
pub open spec fn be_bytes_u32(x: u32) -> Seq<u8> {
    seq![
        (x / 0x100_0000) as u8,
        (x / 0x1_0000 % 256) as u8,
        (x / 0x100 % 256) as u8,
        (x % 256) as u8,
    ]
}

/// The eight bytes of a 64-bit number, most significant first.
pub open spec fn be_bytes_u64(x: u64) -> Seq<u8> {
    seq![
        (x / 0x100_0000_0000_0000) as u8,
        (x / 0x1_0000_0000_0000 % 256) as u8,
        (x / 0x100_0000_0000 % 256) as u8,
        (x / 0x1_0000_0000 % 256) as u8,
        (x / 0x100_0000 % 256) as u8,
        (x / 0x1_0000 % 256) as u8,
        (x / 0x100 % 256) as u8,
        (x % 256) as u8,
    ]
}

/// Appends the four bytes of `x`, most significant first.
fn push_be_u32(out: &mut Vec<u8>, x: u32)
    ensures
        final(out)@ == old(out)@ + be_bytes_u32(x),
{
    out.push((x / 0x100_0000) as u8);
    out.push((x / 0x1_0000 % 256) as u8);
    out.push((x / 0x100 % 256) as u8);
    out.push((x % 256) as u8);
    assert(out@ =~= old(out)@ + be_bytes_u32(x));
}

/// Appends the eight bytes of `x`, most significant first.
fn push_be_u64(out: &mut Vec<u8>, x: u64)
    ensures
        final(out)@ == old(out)@ + be_bytes_u64(x),
{
    out.push((x / 0x100_0000_0000_0000) as u8);
    out.push((x / 0x1_0000_0000_0000 % 256) as u8);
    out.push((x / 0x100_0000_0000 % 256) as u8);
    out.push((x / 0x1_0000_0000 % 256) as u8);
    out.push((x / 0x100_0000 % 256) as u8);
    out.push((x / 0x1_0000 % 256) as u8);
    out.push((x / 0x100 % 256) as u8);
    out.push((x % 256) as u8);
    assert(out@ =~= old(out)@ + be_bytes_u64(x));
}

/// Appends the bytes of a slice.
fn push_bytes(out: &mut Vec<u8>, bytes: &[u8])
    ensures
        final(out)@ == old(out)@ + bytes@,
{
    let mut i: usize = 0;
    while i < bytes.len()
        invariant
            i <= bytes@.len(),
            out@ == old(out)@ + bytes@.take(i as int),
        decreases bytes@.len() - i,
    {
        out.push(bytes[i]);
        assert(out@ =~= old(out)@ + bytes@.take(i + 1));
        i = i + 1;
    }
    assert(bytes@.take(bytes@.len() as int) =~= bytes@);
}

/// A transfer, ready to be serialized, hashed and signed.
#[derive(Debug)]
pub struct TransferMessage {
    /// The sequence number of the sending account, against replay.
    pub seqno: u32,
    /// The unix time after which the message is no longer valid.
    pub valid_until: u32,
    /// The send mode flags.
    pub send_mode: u8,
    /// The destination.
    pub destination: Address,
    /// The amount in nano-units.
    pub amount: u64,
    /// A comment to go with the transfer.
    pub comment: Option<String>,
}

/// A transfer message as plain values.
pub struct TransferMessageView {
    pub seqno: u32,
    pub valid_until: u32,
    pub send_mode: u8,
    pub destination: AddressView,
    pub amount: u64,
    pub comment: Option<Seq<char>>,
}

impl View for TransferMessage {
    type V = TransferMessageView;

    open spec fn view(&self) -> TransferMessageView {
        TransferMessageView {
            seqno: self.seqno,
            valid_until: self.valid_until,
            send_mode: self.send_mode,
            destination: self.destination@,
            amount: self.amount,
            comment: option_text(self.comment),
        }
    }
}

impl Clone for TransferMessage {
    fn clone(&self) -> (r: Self)
        ensures
            r == *self,
    {
        TransferMessage {
            seqno: self.seqno,
            valid_until: self.valid_until,
            send_mode: self.send_mode,
            destination: self.destination.clone(),
            amount: self.amount,
            comment: clone_option_text(&self.comment),
        }
    }
}

impl TransferMessageView {
    /// The message that a wallet at sequence number `seqno` builds from transfer parameters.
    pub open spec fn built(seqno: u32, params: TransferParamsView) -> TransferMessageView {
        TransferMessageView {
            seqno,
            valid_until: params.valid_until,
            send_mode: params.send_mode,
            destination: params.to,
            amount: params.amount,
            comment: params.comment,
        }
    }

    /// The UTF-8 bytes of the comment; none where there is no comment.
    pub open spec fn comment_bytes(self) -> Seq<u8> {
        match self.comment {
            Some(text) => vstd::utf8::encode_utf8(text),
            None => Seq::empty(),
        }
    }

    /// The canonical serialization: sequence number (4 bytes), expiry (4 bytes), send mode
    /// (1 byte), workchain of the destination (1 byte, two's complement), payload of the
    /// destination (32 bytes), amount (8 bytes), then the UTF-8 bytes of the comment. Numbers
    /// are big-endian.
    pub open spec fn canonical_bytes(self) -> Seq<u8> {
        be_bytes_u32(self.seqno) + be_bytes_u32(self.valid_until) + seq![self.send_mode]
            + seq![signed_as_byte(self.destination.workchain)] + self.destination.raw
            + be_bytes_u64(self.amount) + self.comment_bytes()
    }

    /// The content hash: the SHA-256 digest of the canonical serialization.
    pub open spec fn content_hash(self) -> Seq<u8> {
        sha256(self.canonical_bytes())
    }
}

impl TransferMessage {
    /// The canonical serialization of the message.
    pub fn to_bytes(&self) -> (r: Vec<u8>)
        ensures
            r@ == self@.canonical_bytes(),
    {
        let mut bytes: Vec<u8> = Vec::new();
        push_be_u32(&mut bytes, self.seqno);
        push_be_u32(&mut bytes, self.valid_until);
        bytes.push(self.send_mode);
        bytes.push(i8_to_byte(self.destination.workchain));
        push_bytes(&mut bytes, self.destination.raw.as_slice());
        push_be_u64(&mut bytes, self.amount);
        match &self.comment {
            Some(comment) => {
                push_bytes(&mut bytes, comment.as_str().as_bytes());
            },
            None => {},
        }
        assert(bytes@ =~= self@.canonical_bytes());
        bytes
    }

    /// The content hash of the message: the SHA-256 digest of its canonical serialization.
    pub fn hash(&self) -> (r: [u8; 32])
        ensures
            r@ == self@.content_hash(),
    {
        let bytes = self.to_bytes();
        sha256_digest(bytes.as_slice())
    }
}

/// Messages with the same field values have the same serialization and the same content hash.
pub proof fn lemma_serialization_is_deterministic(a: TransferMessage, b: TransferMessage)
    requires
        a@ == b@,
    ensures
        a@.canonical_bytes() == b@.canonical_bytes(),
        a@.content_hash() == b@.content_hash(),
{
}

/// The key material of an optional key pair.
pub open spec fn option_keys(key_pair: Option<KeyPair>) -> Option<KeyPairView> {
    match key_pair {
        Some(keys) => Some(keys@),
        None => None,
    }
}

/// An account handle: an address, the key material where the wallet may sign, and the
/// sequence number last learnt from the chain.
pub struct Wallet {
    address: Address,
    key_pair: Option<KeyPair>,
    seqno: u32,
}

/// A wallet as plain values.
pub struct WalletView {
    pub address: AddressView,
    pub key_pair: Option<KeyPairView>,
    pub seqno: u32,
}

impl View for Wallet {
    type V = WalletView;

    closed spec fn view(&self) -> WalletView {
        WalletView {
            address: self.address@,
            key_pair: option_keys(self.key_pair),
            seqno: self.seqno,
        }
    }
}

impl WalletView {
    /// The same wallet at another sequence number.
    pub open spec fn with_seqno(self, seqno: u32) -> WalletView {
        WalletView { seqno, ..self }
    }

    /// Whether the wallet holds key material, and so may sign.
    pub open spec fn can_sign(self) -> bool {
        self.key_pair is Some
    }

    /// What building a transfer message gives: the message of the wallet's sequence number and
    /// the parameters where the wallet may sign, the unauthorized error where it may not.
    pub open spec fn transfer_message(self, params: TransferParamsView) -> Result<
        TransferMessageView,
        WalletErrorView,
    > {
        if self.can_sign() {
            Ok(TransferMessageView::built(self.seqno, params))
        } else {
            Err(WalletErrorView::SignatureError)
        }
    }

    /// What signing a message hash gives: the Ed25519 signature under the wallet's secret key,
    /// or the unauthorized error where the wallet holds no key material.
    pub open spec fn signature(self, message_hash: Seq<u8>) -> Result<Seq<u8>, WalletErrorView> {
        match self.key_pair {
            Some(keys) => Ok(ed25519_signature(keys.secret_key, message_hash)),
            None => Err(WalletErrorView::SignatureError),
        }
    }
}

impl Wallet {
    /// A wallet for an address, with key material or without; its sequence number is zero.
    pub fn new(address: Address, key_pair: Option<KeyPair>) -> (r: Self)
        ensures
            r@ == (WalletView { address: address@, key_pair: option_keys(key_pair), seqno: 0 }),
    {
        Wallet { address, key_pair, seqno: 0 }
    }

    /// A wallet that can be queried but cannot sign.
    pub fn read_only(address: Address) -> (r: Self)
        ensures
            r@ == (WalletView { address: address@, key_pair: None, seqno: 0 }),
    {
        Self::new(address, None)
    }

    /// The address of the wallet.
    pub fn address(&self) -> (r: &Address)
        ensures
            r@ == self@.address,
    {
        &self.address
    }

    /// Whether the wallet may sign: it may exactly where it holds key material.
    pub fn can_sign(&self) -> (r: bool)
        ensures
            r == self@.can_sign(),
    {
        self.key_pair.is_some()
    }

    /// The public key, where the wallet holds key material.
    pub fn public_key(&self) -> (r: Option<&[u8; 32]>)
        ensures
            match self@.key_pair {
                Some(keys) => r matches Some(key) && key@ == keys.public_key,
                None => r is None,
            },
    {
        match &self.key_pair {
            Some(keys) => Some(&keys.public_key),
            None => None,
        }
    }

    /// The sequence number that the wallet last learnt.
    pub fn seqno(&self) -> (r: u32)
        ensures
            r == self@.seqno,
    {
        self.seqno
    }

    /// Replaces the sequence number; address and key material stay.
    pub fn set_seqno(&mut self, seqno: u32)
        ensures
            final(self)@ == old(self)@.with_seqno(seqno),
    {
        self.seqno = seqno;
    }

    /// Builds the transfer message of the wallet's sequence number and the parameters. A
    /// wallet without key material builds none: it gets the unauthorized error, whatever the
    /// parameters.
    pub fn create_transfer_message(&self, params: &TransferParams) -> (r: Result<
        TransferMessage,
        WalletError,
    >)
        ensures
            match self@.transfer_message(params@) {
                Ok(message) => r matches Ok(m) && m@ == message,
                Err(error) => r matches Err(e) && e@ == error,
            },
            !self@.can_sign() ==> (r matches Err(e) && e@ == WalletErrorView::SignatureError),
    {
        if !self.can_sign() {
            return Err(WalletError::SignatureError);
        }
        Ok(
            TransferMessage {
                seqno: self.seqno,
                valid_until: params.valid_until,
                send_mode: params.send_mode,
                destination: params.to.clone(),
                amount: params.amount,
                comment: clone_option_text(&params.comment),
            },
        )
    }

    /// Signs a message hash with the wallet's secret key. A wallet without key material gets
    /// the unauthorized error. The wallet is left as it was.
    pub fn sign(&self, message_hash: &[u8; 32]) -> (r: Result<[u8; 64], WalletError>)
        ensures
            match self@.signature(message_hash@) {
                Ok(signature) => r matches Ok(s) && s@ == signature,
                Err(error) => r matches Err(e) && e@ == error,
            },
    {
        match &self.key_pair {
            Some(keys) => Ok(ed25519_sign(&keys.secret_key, message_hash.as_slice())),
            None => Err(WalletError::SignatureError),
        }
    }
}

/// Collects what a wallet is made of.
pub struct WalletBuilder {
    address: Option<Address>,
    key_pair: Option<KeyPair>,
}

/// A wallet builder as plain values.
pub struct WalletBuilderView {
    pub address: Option<AddressView>,
    pub key_pair: Option<KeyPairView>,
}

impl View for WalletBuilder {
    type V = WalletBuilderView;

    closed spec fn view(&self) -> WalletBuilderView {
        WalletBuilderView {
            address: match self.address {
                Some(address) => Some(address@),
                None => None,
            },
            key_pair: option_keys(self.key_pair),
        }
    }
}

impl WalletBuilder {
    /// A builder that holds nothing yet.
    pub fn new() -> (r: Self)
        ensures
            r@ == (WalletBuilderView { address: None, key_pair: None }),
    {
        WalletBuilder { address: None, key_pair: None }
    }

    /// Sets the address.
    pub fn address(self, address: Address) -> (r: Self)
        ensures
            r@ == (WalletBuilderView { address: Some(address@), ..self@ }),
    {
        WalletBuilder { address: Some(address), key_pair: self.key_pair }
    }

    /// Sets the key material.
    pub fn key_pair(self, key_pair: KeyPair) -> (r: Self)
        ensures
            r@ == (WalletBuilderView { key_pair: Some(key_pair@), ..self@ }),
    {
        WalletBuilder { address: self.address, key_pair: Some(key_pair) }
    }

    /// Builds the wallet, at sequence number zero. A builder without an address builds none:
    /// it gets a configuration error.
    pub fn build(self) -> (r: Result<Wallet, WalletError>)
        ensures
            match self@.address {
                Some(address) => r matches Ok(wallet) && wallet@ == (WalletView {
                    address,
                    key_pair: self@.key_pair,
                    seqno: 0,
                }),
                None => r matches Err(e) && e@ == WalletErrorView::Configuration(
                    "Wallet address is required"@,
                ),
            },
    {
        match self.address {
            Some(address) => Ok(Wallet::new(address, self.key_pair)),
            None => Err(WalletError::Configuration(String::from_str("Wallet address is required"))),
        }
    }
}

impl Default for WalletBuilder {
    fn default() -> (r: Self)
        ensures
            r@ == (WalletBuilderView { address: None, key_pair: None }),
    {
        Self::new()
    }
}

} // verus!
