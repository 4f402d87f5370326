//! The values that wallet operations work on: networks, addresses, key material, transfer
//! parameters and what the chain reports.

use crate::codec::{
    base64_decode_standard, base64_decode_url_safe_no_pad, base64_standard_decoding,
    base64_url_safe_no_pad_decoding, byte_to_i8, canonical_text, chars_of, crc16_checksum,
    format_i8, hex_decode, hex_encode, hex_encoding, lemma_parse_canonical_text,
    parse_address_text, parse_i8, parse_padded_bytes, parse_padded_decodings,
};
use crate::error::{WalletError, WalletErrorView};
use vstd::prelude::*;

verus! {

/// The network a client talks to.
#[derive(Debug, Clone, Copy, PartialEq, Eq, Structural)]
pub enum Network {
    /// The production network.
    Mainnet,
    /// The network for development.
    Testnet,
}

impl Network {
    /// The URL of the network's HTTP API, as a text.
    pub open spec fn api_endpoint_text(self) -> Seq<char> {
        match self {
            Network::Mainnet => "https://toncenter.com/api/v2"@,
            Network::Testnet => "https://testnet.toncenter.com/api/v2"@,
        }
    }

    /// The URL of the network's block explorer, as a text.
    pub open spec fn explorer_url_text(self) -> Seq<char> {
        match self {
            Network::Mainnet => "https://tonscan.org"@,
            Network::Testnet => "https://testnet.tonscan.org"@,
        }
    }

    /// The URL of the network's HTTP API.
    pub fn api_endpoint(&self) -> (r: &'static str)
        ensures
            r@ == self.api_endpoint_text(),
    {
        match self {
            Network::Mainnet => "https://toncenter.com/api/v2",
            Network::Testnet => "https://testnet.toncenter.com/api/v2",
        }
    }

    /// The URL of the network's block explorer.
    pub fn explorer_url(&self) -> (r: &'static str)
        ensures
            r@ == self.explorer_url_text(),
    {
        match self {
            Network::Mainnet => "https://tonscan.org",
            Network::Testnet => "https://testnet.tonscan.org",
        }
    }
}

/// An account address: a workchain and a 32-byte payload, with its canonical text.
#[derive(Debug)]
pub struct Address {
    /// The 32 bytes that identify the account within its workchain.
    pub raw: [u8; 32],
    /// The workchain: -1 for the masterchain, 0 for the basechain.
    pub workchain: i8,
    /// The canonical text, `<workchain>:<64 lowercase hexadecimal digits>`.
    pub friendly: String,
}

/// An address as plain values.
pub struct AddressView {
    pub raw: Seq<u8>,
    pub workchain: i8,
    pub friendly: Seq<char>,
}

impl View for Address {
    type V = AddressView;

    open spec fn view(&self) -> AddressView {
        AddressView { raw: self.raw@, workchain: self.workchain, friendly: self.friendly@ }
    }
}

/// The address of a workchain and a payload: its text is the canonical one.
pub open spec fn address_view(workchain: i8, raw: Seq<u8>) -> AddressView {
    AddressView { raw, workchain, friendly: canonical_text(workchain, raw) }
}

impl Clone for Address {
    fn clone(&self) -> (r: Self)
        ensures
            r == *self,
    {
        Address { raw: self.raw, workchain: self.workchain, friendly: self.friendly.clone() }
    }
}

/// Parsing the text of a well-formed address gives its workchain and payload back.
pub proof fn lemma_address_roundtrip(address: Address)
    requires
        address.well_formed(),
    ensures
        parse_address_text(address@.friendly) == Ok::<(i8, Seq<u8>), Seq<char>>(
            (address.workchain, address.raw@),
        ),
{
    lemma_parse_canonical_text(address.workchain, address.raw@);
}

/// The position of the first `needle` in `chars` at or after `from`, or the length of `chars`
/// where there is none.
fn find_char(chars: &Vec<char>, from: usize, needle: char) -> (r: usize)
    requires
        from <= chars@.len(),
    ensures
        from <= r <= chars@.len(),
        forall|j: int| from <= j < r ==> chars@[j] != needle,
        r < chars@.len() ==> chars@[r as int] == needle,
{
    let mut i: usize = from;
    while i < chars.len()
        invariant
            from <= i <= chars@.len(),
            forall|j: int| from <= j < i ==> chars@[j] != needle,
        decreases chars@.len() - i,
    {
        if chars[i] == needle {
            return i;
        }
        i = i + 1;
    }
    i
}

/// The canonical text of a workchain and a payload.
fn render_canonical(workchain: i8, raw: &[u8; 32]) -> (r: String)
    ensures
        r@ == canonical_text(workchain, raw@),
{
    let mut text = format_i8(workchain);
    proof {
        reveal_strlit(":");
    }
    text.append(":");
    let digits = hex_encode(raw.as_slice());
    text.append(digits.as_str());
    assert(text@ =~= canonical_text(workchain, raw@));
    text
}

impl Address {
    /// Whether the stored text is the canonical text of workchain and payload.
    pub open spec fn well_formed(&self) -> bool {
        self@ == address_view(self.workchain, self.raw@)
    }

    /// The address of a payload in a workchain.
    pub fn new(raw: [u8; 32], workchain: i8) -> (r: Self)
        ensures
            r@ == address_view(workchain, raw@),
            r.well_formed(),
    {
        let friendly = render_canonical(workchain, &raw);
        Address { raw, workchain, friendly }
    }

    /// Reads an address from its text, in the delimited form `<workchain>:<64 hexadecimal
    /// digits>` or, where the text begins with `EQ`, `kQ`, `Ef` or `UQ`, in the padded base64
    /// form, whose checksum must match. Every other text is refused as an invalid address, with
    /// the reason. The address that is read carries the canonical text, whatever the form and
    /// the letter case of the text it was read from.
    pub fn from_friendly(address: &str) -> (r: Result<Self, WalletError>)
        ensures
            match parse_address_text(address@) {
                Ok((workchain, raw)) => r matches Ok(a) && a@ == address_view(workchain, raw),
                Err(reason) => r matches Err(e) && e@ == WalletErrorView::InvalidAddress(reason),
            },
            r matches Ok(a) ==> a.well_formed(),
    {
        let chars = chars_of(address);
        let n = chars.len();
        if n >= 2 && ((chars[0] == 'E' && chars[1] == 'Q') || (chars[0] == 'k' && chars[1] == 'Q')
            || (chars[0] == 'E' && chars[1] == 'f') || (chars[0] == 'U' && chars[1] == 'Q')) {
            return Self::from_base64(address);
        }
        let colon = find_char(&chars, 0, ':');
        proof {
            address@.index_of_first_ensures(':');
        }
        if colon == n {
            return Err(WalletError::invalid_address("unrecognized format"));
        }
        let second = find_char(&chars, colon + 1, ':');
        let ghost tail_text = address@.subrange(colon + 1, n as int);
        if second < n {
            proof {
                assert(tail_text[second - colon - 1] == ':');
            }
            return Err(WalletError::invalid_address("Invalid address format"));
        }
        proof {
            assert forall|j: int| 0 <= j < tail_text.len() implies tail_text[j] != ':' by {
                assert(tail_text[j] == address@[colon + 1 + j]);
            }
        }
        let head = address.substring_char(0, colon);
        let tail = address.substring_char(colon + 1, n);
        let workchain = match parse_i8(head) {
            Some(workchain) => workchain,
            None => {
                return Err(WalletError::invalid_address("Invalid workchain"));
            },
        };
        let bytes = match hex_decode(tail) {
            Ok(bytes) => bytes,
            Err(_) => {
                return Err(WalletError::invalid_address("Invalid hex in address"));
            },
        };
        if bytes.len() != 32 {
            return Err(WalletError::invalid_address("Address must be 32 bytes"));
        }
        let raw = payload_from(bytes.as_slice(), 0);
        assert(raw@ =~= bytes@);
        Ok(Self::new(raw, workchain))
    }

    /// Reads an address from the padded form: the text is decoded with the URL-safe base64
    /// alphabet or, failing that, with the standard one.
    fn from_base64(address: &str) -> (r: Result<Self, WalletError>)
        ensures
            match parse_padded_decodings(
                base64_url_safe_no_pad_decoding(address@),
                base64_standard_decoding(address@),
            ) {
                Ok((workchain, raw)) => r matches Ok(a) && a@ == address_view(workchain, raw),
                Err(reason) => r matches Err(e) && e@ == WalletErrorView::InvalidAddress(reason),
            },
    {
        match base64_decode_url_safe_no_pad(address) {
            Ok(decoded) => Self::from_padded_bytes(decoded.as_slice()),
            Err(_) => match base64_decode_standard(address) {
                Ok(decoded) => Self::from_padded_bytes(decoded.as_slice()),
                Err(_) => Err(WalletError::invalid_address("Invalid base64 encoding")),
            },
        }
    }

    /// Reads an address from the bytes of the padded form: one flag byte, the workchain byte,
    /// the 32 payload bytes and the two bytes of the checksum over the 34 bytes before them.
    /// Bytes of another length or with another checksum are refused as an invalid address.
    pub fn from_padded_bytes(decoded: &[u8]) -> (r: Result<Self, WalletError>)
        ensures
            match parse_padded_bytes(decoded@) {
                Ok((workchain, raw)) => r matches Ok(a) && a@ == address_view(workchain, raw),
                Err(reason) => r matches Err(e) && e@ == WalletErrorView::InvalidAddress(reason),
            },
            r matches Ok(a) ==> a.well_formed(),
    {
        if decoded.len() != 36 {
            return Err(WalletError::invalid_address("Invalid address length"));
        }
        let body = vstd::slice::slice_subrange(decoded, 0, 34);
        let stored: u16 = (decoded[34] as u16) * 256 + (decoded[35] as u16);
        if crc16_checksum(body) != stored {
            return Err(WalletError::invalid_address("Invalid address checksum"));
        }
        let workchain = byte_to_i8(decoded[1]);
        let raw = payload_from(decoded, 2);
        assert(raw@ =~= decoded@.subrange(2, 34));
        Ok(Self::new(raw, workchain))
    }

    /// The canonical text, computed from workchain and payload.
    pub fn to_hex(&self) -> (r: String)
        ensures
            r@ == canonical_text(self.workchain, self.raw@),
    {
        render_canonical(self.workchain, &self.raw)
    }

    /// The text that the address carries: the canonical text, for a well-formed address.
    pub fn to_string(&self) -> (r: String)
        ensures
            r@ == self.friendly@,
            self.well_formed() ==> r@ == canonical_text(self.workchain, self.raw@),
    {
        self.friendly.clone()
    }
}

/// The text of an optional string.
pub open spec fn option_text(text: Option<String>) -> Option<Seq<char>> {
    match text {
        Some(s) => Some(s@),
        None => None,
    }
}

/// A copy of an optional string.
pub fn clone_option_text(text: &Option<String>) -> (r: Option<String>)
    ensures
        r == *text,
{
    match text {
        Some(s) => Some(s.clone()),
        None => None,
    }
}

/// What the Broadcast Service reports of a transaction.
#[derive(Debug)]
pub struct TransactionResult {
    /// The hash that identifies the transaction.
    pub hash: String,
    /// The logical time that the ledger gave the transaction; zero while it is pending.
    pub lt: u64,
    /// The fee paid, in nano-units; zero while the transaction is pending.
    pub fee: u64,
    /// Whether the transaction succeeded.
    pub success: bool,
    /// The error message of a transaction that failed.
    pub error: Option<String>,
}

/// A transaction result as plain values.
pub struct TransactionResultView {
    pub hash: Seq<char>,
    pub lt: u64,
    pub fee: u64,
    pub success: bool,
    pub error: Option<Seq<char>>,
}

impl View for TransactionResult {
    type V = TransactionResultView;

    open spec fn view(&self) -> TransactionResultView {
        TransactionResultView {
            hash: self.hash@,
            lt: self.lt,
            fee: self.fee,
            success: self.success,
            error: option_text(self.error),
        }
    }
}

impl Clone for TransactionResult {
    fn clone(&self) -> (r: Self)
        ensures
            r == *self,
    {
        TransactionResult {
            hash: self.hash.clone(),
            lt: self.lt,
            fee: self.fee,
            success: self.success,
            error: clone_option_text(&self.error),
        }
    }
}

impl TransactionResult {
    /// The result of a transaction that is signed but not yet confirmed: its hash in lowercase
    /// hexadecimal, logical time and fee still zero, no error.
    pub open spec fn pending_view(hash: Seq<u8>) -> TransactionResultView {
        TransactionResultView {
            hash: hex_encoding(hash),
            lt: 0,
            fee: 0,
            success: true,
            error: None,
        }
    }

    /// The result of a transaction with the given content hash that is signed but not yet
    /// confirmed.
    pub fn pending(hash: &[u8; 32]) -> (r: Self)
        ensures
            r@ == Self::pending_view(hash@),
    {
        TransactionResult {
            hash: hex_encode(hash.as_slice()),
            lt: 0,
            fee: 0,
            success: true,
            error: None,
        }
    }
}

/// What the Chain Query Service reports of an account.
#[derive(Debug, Clone, Copy)]
pub struct WalletState {
    /// The balance in nano-units.
    pub balance: u64,
    /// The sequence number that the next message of the account must carry.
    pub seqno: u32,
    /// Whether the account's contract is deployed.
    pub is_deployed: bool,
    /// The logical time of the account's last transaction, if it has one.
    pub last_transaction_lt: Option<u64>,
}

/// The seconds for which a transfer stays valid where the caller sets no expiry.
pub const DEFAULT_VALIDITY_SECONDS: u32 = 60;

/// The send mode where the caller sets none: pay fees separately, ignore intermediate errors.
pub const DEFAULT_SEND_MODE: u8 = 3;

/// The expiry of a transfer made at `now` (seconds since the unix epoch) where the caller sets
/// none: sixty seconds later, or the largest timestamp where that one cannot be represented.
pub open spec fn default_valid_until(now: u64) -> u32 {
    if now + 60 <= u32::MAX {
        (now + 60) as u32
    } else {
        u32::MAX
    }
}

/// `SystemTime::now`, as whole seconds since `UNIX_EPOCH`; zero for a clock set before it.
/// Nothing is claimed of the value.
#[verifier::external_body]
pub(crate) fn unix_time_seconds() -> u64 {
    match std::time::SystemTime::now().duration_since(std::time::UNIX_EPOCH) {
        Ok(elapsed) => elapsed.as_secs(),
        Err(_) => 0,
    }
}

/// What a transfer is to do: where the coins go, how many, and under which conditions.
#[derive(Debug)]
pub struct TransferParams {
    /// The destination.
    pub to: Address,
    /// The amount in nano-units.
    pub amount: u64,
    /// A comment to go with the transfer.
    pub comment: Option<String>,
    /// The send mode flags.
    pub send_mode: u8,
    /// The unix time after which the transfer must no longer be sent.
    pub valid_until: u32,
}

/// Transfer parameters as plain values.
pub struct TransferParamsView {
    pub to: AddressView,
    pub amount: u64,
    pub comment: Option<Seq<char>>,
    pub send_mode: u8,
    pub valid_until: u32,
}

impl View for TransferParams {
    type V = TransferParamsView;

    open spec fn view(&self) -> TransferParamsView {
        TransferParamsView {
            to: self.to@,
            amount: self.amount,
            comment: option_text(self.comment),
            send_mode: self.send_mode,
            valid_until: self.valid_until,
        }
    }
}

impl Clone for TransferParams {
    fn clone(&self) -> (r: Self)
        ensures
            r == *self,
    {
        TransferParams {
            to: self.to.clone(),
            amount: self.amount,
            comment: clone_option_text(&self.comment),
            send_mode: self.send_mode,
            valid_until: self.valid_until,
        }
    }
}

impl TransferParams {
    /// The parameters of a plain transfer made at `now`: no comment, the default send mode,
    /// valid for the default time.
    pub open spec fn fresh(to: AddressView, amount: u64, now: u64) -> TransferParamsView {
        TransferParamsView {
            to,
            amount,
            comment: None,
            send_mode: 3,
            valid_until: default_valid_until(now),
        }
    }

    /// The parameters of a plain transfer made now, by the system clock: no comment, send mode
    /// 3, valid for sixty seconds.
    pub fn new(to: Address, amount: u64) -> (r: Self)
        ensures
            exists|now: u64| r@ == Self::fresh(to@, amount, now),
    {
        let now = unix_time_seconds();
        let r = Self::new_at(to, amount, now);
        assert(r@ == Self::fresh(to@, amount, now));
        r
    }

    /// The parameters of a plain transfer made at `now`, in seconds since the unix epoch: no
    /// comment, send mode 3, valid for sixty seconds.
    pub fn new_at(to: Address, amount: u64, now: u64) -> (r: Self)
        ensures
            r@ == Self::fresh(to@, amount, now),
    {
        let valid_until: u32 = if now <= (u32::MAX - DEFAULT_VALIDITY_SECONDS) as u64 {
            (now as u32) + DEFAULT_VALIDITY_SECONDS
        } else {
            u32::MAX
        };
        TransferParams { to, amount, comment: None, send_mode: DEFAULT_SEND_MODE, valid_until }
    }

    /// The same parameters with a comment.
    pub fn with_comment(self, comment: &str) -> (r: Self)
        ensures
            r@ == (TransferParamsView { comment: Some(comment@), ..self@ }),
    {
        TransferParams {
            to: self.to,
            amount: self.amount,
            comment: Some(String::from_str(comment)),
            send_mode: self.send_mode,
            valid_until: self.valid_until,
        }
    }

    /// The same parameters with another send mode.
    pub fn with_send_mode(self, mode: u8) -> (r: Self)
        ensures
            r@ == (TransferParamsView { send_mode: mode, ..self@ }),
    {
        TransferParams {
            to: self.to,
            amount: self.amount,
            comment: self.comment,
            send_mode: mode,
            valid_until: self.valid_until,
        }
    }

    /// The same parameters with another expiry.
    pub fn with_valid_until(self, valid_until: u32) -> (r: Self)
        ensures
            r@ == (TransferParamsView { valid_until, ..self@ }),
    {
        TransferParams {
            to: self.to,
            amount: self.amount,
            comment: self.comment,
            send_mode: self.send_mode,
            valid_until,
        }
    }
}

/// The key material of an account: a secret key and the public key that goes with it.
pub struct KeyPair {
    /// The 32 bytes of the secret key.
    pub secret_key: [u8; 32],
    /// The 32 bytes of the public key.
    pub public_key: [u8; 32],
}

/// Key material as plain values.
pub struct KeyPairView {
    pub secret_key: Seq<u8>,
    pub public_key: Seq<u8>,
}

impl View for KeyPair {
    type V = KeyPairView;

    open spec fn view(&self) -> KeyPairView {
        KeyPairView { secret_key: self.secret_key@, public_key: self.public_key@ }
    }
}

impl Clone for KeyPair {
    fn clone(&self) -> (r: Self)
        ensures
            r == *self,
    {
        KeyPair { secret_key: self.secret_key, public_key: self.public_key }
    }
}

impl KeyPair {
    /// Key material from its two halves.
    pub fn new(secret_key: [u8; 32], public_key: [u8; 32]) -> (r: Self)
        ensures
            r.secret_key == secret_key,
            r.public_key == public_key,
    {
        KeyPair { secret_key, public_key }
    }

    /// The public key in lowercase hexadecimal.
    pub fn public_key_hex(&self) -> (r: String)
        ensures
            r@ == hex_encoding(self.public_key@),
    {
        hex_encode(self.public_key.as_slice())
    }

    /// The text that shows key material in logs: the public key in hexadecimal, and a fixed
    /// word in place of the secret key.
    pub open spec fn redacted(public_key: Seq<u8>) -> Seq<char> {
        "KeyPair { public_key: \""@ + hex_encoding(public_key)
            + "\", secret_key: \"[REDACTED]\" }"@
    }

    /// A rendering for logs and debugging. It is made of the public key alone: no byte of the
    /// secret key enters it.
    pub fn debug_string(&self) -> (r: String)
        ensures
            r@ == Self::redacted(self.public_key@),
    {
        let mut text = String::from_str("KeyPair { public_key: \"");
        let digits = hex_encode(self.public_key.as_slice());
        text.append(digits.as_str());
        text.append("\", secret_key: \"[REDACTED]\" }");
        text
    }
}

/// The 32 bytes of `bytes` that begin at `from`.
fn payload_from(bytes: &[u8], from: usize) -> (r: [u8; 32])
    requires
        from + 32 <= bytes@.len(),
    ensures
        r@ == bytes@.subrange(from as int, from + 32),
{
    let mut raw = [0u8; 32];
    let n = bytes.len();
    let mut i: usize = 0;
    while i < 32
        invariant
            i <= 32,
            n == bytes@.len(),
            from + 32 <= n,
            forall|j: int| 0 <= j < i ==> raw@[j] == bytes@[from + j],
        decreases 32 - i,
    {
        raw[i] = bytes[from + i];
        i = i + 1;
    }
    assert(raw@ =~= bytes@.subrange(from as int, from + 32));
    raw
}

} // verus!
