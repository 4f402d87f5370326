//! The address codec: what the texts of an address denote, and the encodings that they are made
//! of, which are signed decimal numbers, hexadecimal payloads, base64 and the CRC-16 checksum
//! of the padded form.

use vstd::prelude::*;

verus! {

/// The character of a decimal digit `0..=9`.
pub open spec fn digit_char(d: int) -> char {
    (d + 48) as char
}

/// Whether `c` is one of `'0'..='9'`.
pub open spec fn is_digit(c: char) -> bool {
    '0' <= c && c <= '9'
}

/// The number that a decimal digit stands for.
pub open spec fn digit_value(c: char) -> int {
    c as int - 48
}

/// The decimal digits of `n`, most significant first, without leading zeros.
pub open spec fn decimal_digits(n: nat) -> Seq<char>
    decreases n,
{
    if n < 10 {
        seq![digit_char(n as int)]
    } else {
        decimal_digits(n / 10).push(digit_char((n % 10) as int))
    }
}

/// The decimal rendering of a signed number: a minus sign for negative numbers, then the digits
/// of the magnitude.
pub open spec fn decimal_text(v: int) -> Seq<char> {
    if v < 0 {
        seq!['-'] + decimal_digits((-v) as nat)
    } else {
        decimal_digits(v as nat)
    }
}

/// Whether every character of `s` is a decimal digit.
pub open spec fn all_digits(s: Seq<char>) -> bool {
    forall|i: int| 0 <= i < s.len() ==> is_digit(#[trigger] s[i])
}

/// The number that a sequence of decimal digits denotes, most significant digit first.
pub open spec fn digits_value(s: Seq<char>) -> nat
    decreases s.len(),
{
    if s.len() == 0 {
        0
    } else {
        (digits_value(s.drop_last()) * 10 + digit_value(s.last())) as nat
    }
}

/// What a text denotes as a signed 8-bit decimal number: an optional `+` or `-`, then one or
/// more decimal digits (leading zeros allowed) whose signed value lies in `-128..=127`.
/// Everything else denotes nothing.
pub open spec fn parse_decimal_i8(s: Seq<char>) -> Option<i8> {
    let negative = s.len() > 0 && s[0] == '-';
    let signed = s.len() > 0 && (s[0] == '-' || s[0] == '+');
    let digits = if signed { s.subrange(1, s.len() as int) } else { s };
    if digits.len() == 0 || !all_digits(digits) {
        None
    } else {
        let magnitude = digits_value(digits) as int;
        let value = if negative { -magnitude } else { magnitude };
        if -128 <= value <= 127 {
            Some(value as i8)
        } else {
            None
        }
    }
}

/// The one-character text of a decimal digit.
fn digit_str(d: u8) -> (r: &'static str)
    requires
        d < 10,
    ensures
        r@ == seq![digit_char(d as int)],
{
    proof {
        reveal_strlit("0");
        reveal_strlit("1");
        reveal_strlit("2");
        reveal_strlit("3");
        reveal_strlit("4");
        reveal_strlit("5");
        reveal_strlit("6");
        reveal_strlit("7");
        reveal_strlit("8");
        reveal_strlit("9");
    }
    let r = match d {
        0 => "0",
        1 => "1",
        2 => "2",
        3 => "3",
        4 => "4",
        5 => "5",
        6 => "6",
        7 => "7",
        8 => "8",
        _ => "9",
    };
    assert(r@ =~= seq![digit_char(d as int)]);
    r
}

/// Renders an unsigned number in decimal, without leading zeros.
pub fn format_u64(n: u64) -> (r: String)
    ensures
        r@ == decimal_digits(n as nat),
    decreases n,
{
    if n < 10 {
        String::from_str(digit_str(n as u8))
    } else {
        let mut out = format_u64(n / 10);
        out.append(digit_str((n % 10) as u8));
        assert(out@ =~= decimal_digits(n as nat));
        out
    }
}

/// Renders a signed 8-bit number in decimal.
pub fn format_i8(v: i8) -> (r: String)
    ensures
        r@ == decimal_text(v as int),
{
    if v < 0 {
        proof {
            reveal_strlit("-");
        }
        let mut out = String::from_str("-");
        let digits = format_u64((-(v as i16)) as u64);
        out.append(digits.as_str());
        assert(out@ =~= decimal_text(v as int));
        out
    } else {
        format_u64(v as u64)
    }
}

/// The characters of a text, in order.
pub fn chars_of(s: &str) -> (r: Vec<char>)
    ensures
        r@ == s@,
{
    let mut out: Vec<char> = Vec::new();
    for c in it: s.chars()
        invariant
            it.seq() == s@,
            out@ == it.seq().take(it.index() as int),
    {
        out.push(c);
    }
    out
}

/// Appending a digit to a digit sequence multiplies its value by ten and adds the digit.
proof fn lemma_digits_value_push(s: Seq<char>, c: char)
    requires
        is_digit(c),
    ensures
        digits_value(s.push(c)) == digits_value(s) * 10 + digit_value(c),
{
    assert(s.push(c).drop_last() =~= s);
}

/// Reads a signed 8-bit decimal number: an optional sign, then digits.
#[verifier::loop_isolation(false)]
pub fn parse_i8(s: &str) -> (r: Option<i8>)
    ensures
        r == parse_decimal_i8(s@),
{
    let chars = chars_of(s);
    let n = chars.len();
    if n == 0 {
        return None;
    }
    let negative = chars[0] == '-';
    let start: usize = if negative || chars[0] == '+' { 1 } else { 0 };
    if start == n {
        return None;
    }
    let ghost digits = chars@.subrange(start as int, n as int);
    proof {
        if start == 0 {
            assert(digits =~= s@);
        }
    }
    let mut magnitude: u32 = 0;
    let mut i: usize = start;
    while i < n
        invariant
            start <= i <= n,
            n == chars@.len(),
            digits == chars@.subrange(start as int, n as int),
            all_digits(digits.take(i - start)),
            magnitude <= 128 ==> magnitude == digits_value(digits.take(i - start)),
            magnitude > 128 ==> digits_value(digits.take(i - start)) > 128,
            magnitude <= 1289,
        decreases n - i,
    {
        let c = chars[i];
        if !(c >= '0' && c <= '9') {
            proof {
                assert(digits[i - start] == c);
                assert(!all_digits(digits));
            }
            return None;
        }
        let d: u32 = (c as u32) - 48;
        proof {
            let before = digits.take(i - start);
            let after = digits.take(i + 1 - start);
            assert(after =~= before.push(c));
            lemma_digits_value_push(before, c);
            assert forall|k: int| 0 <= k < after.len() implies is_digit(#[trigger] after[k]) by {
                if k < before.len() {
                    assert(after[k] == before[k]);
                }
            }
        }
        if magnitude <= 128 {
            magnitude = magnitude * 10 + d;
        }
        i = i + 1;
    }
    proof {
        assert(digits.take(n - start) =~= digits);
    }
    if negative {
        if magnitude <= 128 {
            Some((-(magnitude as i16)) as i8)
        } else {
            None
        }
    } else {
        if magnitude <= 127 {
            Some(magnitude as i8)
        } else {
            None
        }
    }
}

/// The lowercase hexadecimal digit of a number in `0..=15`.
pub open spec fn hex_digit(n: int) -> char {
    if n < 10 {
        (n + 48) as char
    } else {
        (n + 87) as char
    }
}

/// The number that a hexadecimal digit stands for, in either case; nothing for any other
/// character.
pub open spec fn hex_value(c: char) -> Option<int> {
    if '0' <= c && c <= '9' {
        Some(c as int - 48)
    } else if 'a' <= c && c <= 'f' {
        Some(c as int - 87)
    } else if 'A' <= c && c <= 'F' {
        Some(c as int - 55)
    } else {
        None
    }
}

/// The hexadecimal rendering of bytes: two lowercase digits for each byte, high nibble first.
pub open spec fn hex_encoding(bytes: Seq<u8>) -> Seq<char> {
    Seq::new(
        2 * bytes.len(),
        |i: int|
            hex_digit(
                if i % 2 == 0 {
                    bytes[i / 2] as int / 16
                } else {
                    bytes[i / 2] as int % 16
                },
            ),
    )
}

/// Whether a text is a sequence of hexadecimal digit pairs.
pub open spec fn is_hex_text(s: Seq<char>) -> bool {
    s.len() % 2 == 0 && forall|i: int| 0 <= i < s.len() ==> (#[trigger] hex_value(s[i])) is Some
}

/// The bytes that a text of hexadecimal digit pairs denotes.
pub open spec fn hex_decoding(s: Seq<char>) -> Seq<u8> {
    Seq::new(
        s.len() / 2,
        |i: int| (hex_value(s[2 * i])->0 * 16 + hex_value(s[2 * i + 1])->0) as u8,
    )
}

/// `hex::FromHexError`, the error of `hex::decode`. It is carried through and never looked
/// into.
#[verifier::external_type_specification]
#[verifier::external_body]
pub struct ExFromHexError(hex::FromHexError);

/// `hex::encode`: every byte becomes two lowercase hexadecimal digits, the high nibble first.
#[verifier::external_body]
pub(crate) fn hex_encode(data: &[u8]) -> (r: String)
    ensures
        r@ == hex_encoding(data@),
{
    hex::encode(data)
}

/// `hex::decode`: succeeds exactly on an even number of hexadecimal digits of either case, and
/// then yields one byte for each pair, the first digit being the high nibble.
#[verifier::external_body]
pub(crate) fn hex_decode(text: &str) -> (r: Result<Vec<u8>, hex::FromHexError>)
    ensures
        r is Ok <==> is_hex_text(text@),
        r matches Ok(bytes) ==> bytes@ == hex_decoding(text@),
{
    hex::decode(text)
}

/// Decoding the hexadecimal rendering of bytes gives the bytes back.
pub proof fn lemma_hex_roundtrip(bytes: Seq<u8>)
    ensures
        is_hex_text(hex_encoding(bytes)),
        hex_decoding(hex_encoding(bytes)) == bytes,
        hex_encoding(bytes).len() == 2 * bytes.len(),
{
    let text = hex_encoding(bytes);
    assert forall|i: int| 0 <= i < text.len() implies (#[trigger] hex_value(text[i])) is Some by {
        let b = bytes[i / 2] as int;
        assert(0 <= b / 16 < 16 && 0 <= b % 16 < 16);
    }
    assert forall|i: int| 0 <= i < bytes.len() implies hex_decoding(text)[i] == bytes[i] by {
        let b = bytes[i] as int;
        assert((2 * i) / 2 == i && (2 * i) % 2 == 0);
        assert((2 * i + 1) / 2 == i && (2 * i + 1) % 2 == 1);
        assert(0 <= b / 16 < 16 && 0 <= b % 16 < 16);
        assert(text[2 * i] == hex_digit(b / 16));
        assert(text[2 * i + 1] == hex_digit(b % 16));
        assert(hex_value(hex_digit(b / 16)) == Some(b / 16));
        assert(hex_value(hex_digit(b % 16)) == Some(b % 16));
        assert((b / 16) * 16 + b % 16 == b);
    }
    assert(hex_decoding(text) =~= bytes);
}

/// The two's complement reading of a byte as a signed number.
pub open spec fn byte_as_signed(b: u8) -> i8 {
    if b >= 128 {
        (b - 256) as i8
    } else {
        b as i8
    }
}

/// The byte whose two's complement reading is `v`.
pub open spec fn signed_as_byte(v: i8) -> u8 {
    if v < 0 {
        (v + 256) as u8
    } else {
        v as u8
    }
}

/// Reads a byte as a signed number in two's complement.
pub fn byte_to_i8(b: u8) -> (r: i8)
    ensures
        r == byte_as_signed(b),
{
    if b >= 128 {
        ((b as i16) - 256) as i8
    } else {
        b as i8
    }
}

/// Stores a signed number as a byte in two's complement.
pub fn i8_to_byte(v: i8) -> (r: u8)
    ensures
        r == signed_as_byte(v),
{
    if v < 0 {
        ((v as i16) + 256) as u8
    } else {
        v as u8
    }
}

/// One bit of the CRC-16/XMODEM register: shift left, and fold in the polynomial `0x1021`
/// where the top bit fell out.
pub open spec fn crc16_shift(crc: u16) -> u16 {
    if crc & 0x8000 != 0 {
        (crc << 1) ^ 0x1021
    } else {
        crc << 1
    }
}

/// `rounds` bits of the CRC-16/XMODEM register.
pub open spec fn crc16_shifts(crc: u16, rounds: nat) -> u16
    decreases rounds,
{
    if rounds == 0 {
        crc
    } else {
        crc16_shift(crc16_shifts(crc, (rounds - 1) as nat))
    }
}

/// The CRC-16/XMODEM register after one more byte of input.
pub open spec fn crc16_update(crc: u16, byte: u8) -> u16 {
    crc16_shifts(crc ^ ((byte as u16) << 8), 8)
}

/// The CRC-16/XMODEM checksum of `data`: polynomial `0x1021`, initial value zero, bits taken
/// most significant first, no final inversion.
pub open spec fn crc16(data: Seq<u8>) -> u16
    decreases data.len(),
{
    if data.len() == 0 {
        0
    } else {
        crc16_update(crc16(data.drop_last()), data.last())
    }
}

/// Computes the CRC-16/XMODEM checksum of `data`.
pub fn crc16_checksum(data: &[u8]) -> (r: u16)
    ensures
        r == crc16(data@),
{
    let mut crc: u16 = 0;
    let mut i: usize = 0;
    while i < data.len()
        invariant
            i <= data@.len(),
            crc == crc16(data@.take(i as int)),
        decreases data@.len() - i,
    {
        let ghost before = crc;
        crc = crc ^ ((data[i] as u16) << 8);
        let ghost start = crc;
        let mut bit: u8 = 0;
        while bit < 8
            invariant
                bit <= 8,
                crc == crc16_shifts(start, bit as nat),
            decreases 8 - bit,
        {
            if crc & 0x8000 != 0 {
                crc = (crc << 1) ^ 0x1021;
            } else {
                crc = crc << 1;
            }
            bit = bit + 1;
        }
        proof {
            assert(data@.take(i + 1).drop_last() =~= data@.take(i as int));
            assert(data@.take(i + 1).last() == data@[i as int]);
            assert(crc == crc16_update(before, data@[i as int]));
        }
        i = i + 1;
    }
    proof {
        assert(data@.take(data@.len() as int) =~= data@);
    }
    crc
}

/// What `base64::engine::general_purpose::URL_SAFE_NO_PAD` decodes a text to, if anything.
pub uninterp spec fn base64_url_safe_no_pad_decoding(text: Seq<char>) -> Option<Seq<u8>>;

/// What `base64::engine::general_purpose::STANDARD` decodes a text to, if anything.
pub uninterp spec fn base64_standard_decoding(text: Seq<char>) -> Option<Seq<u8>>;

/// `base64::DecodeError`, the error of `Engine::decode`. It is carried through and never
/// looked into.
#[verifier::external_type_specification]
#[verifier::external_body]
pub struct ExDecodeError(base64::DecodeError);

/// `Engine::decode` of `base64`'s `URL_SAFE_NO_PAD` engine. The outcome depends on the text
/// alone and is given the name `base64_url_safe_no_pad_decoding`; nothing else is claimed.
#[verifier::external_body]
pub(crate) fn base64_decode_url_safe_no_pad(text: &str) -> (r: Result<Vec<u8>, base64::DecodeError>)
    ensures
        match r {
            Ok(bytes) => base64_url_safe_no_pad_decoding(text@) == Some(bytes@),
            Err(_) => base64_url_safe_no_pad_decoding(text@) is None,
        },
{
    base64::Engine::decode(&base64::engine::general_purpose::URL_SAFE_NO_PAD, text)
}

/// `Engine::decode` of `base64`'s `STANDARD` engine. The outcome depends on the text alone and
/// is given the name `base64_standard_decoding`; nothing else is claimed.
#[verifier::external_body]
pub(crate) fn base64_decode_standard(text: &str) -> (r: Result<Vec<u8>, base64::DecodeError>)
    ensures
        match r {
            Ok(bytes) => base64_standard_decoding(text@) == Some(bytes@),
            Err(_) => base64_standard_decoding(text@) is None,
        },
{
    base64::Engine::decode(&base64::engine::general_purpose::STANDARD, text)
}

/// The canonical text of an address: the workchain in decimal, a colon, and the payload in
/// lowercase hexadecimal.
pub open spec fn canonical_text(workchain: i8, raw: Seq<u8>) -> Seq<char> {
    decimal_text(workchain as int) + seq![':'] + hex_encoding(raw)
}

/// Whether a text begins with one of the two-character tags of the padded form.
pub open spec fn has_padded_tag(s: Seq<char>) -> bool {
    s.len() >= 2 && ((s[0] == 'E' && s[1] == 'Q') || (s[0] == 'k' && s[1] == 'Q') || (s[0] == 'E'
        && s[1] == 'f') || (s[0] == 'U' && s[1] == 'Q'))
}

/// What the 36 bytes of a padded address denote: a flag byte, the workchain byte, 32 payload
/// bytes, and the big-endian CRC-16/XMODEM checksum of the 34 bytes before it. Any other
/// length, or a checksum that does not match, is refused with the reason.
pub open spec fn parse_padded_bytes(decoded: Seq<u8>) -> Result<(i8, Seq<u8>), Seq<char>> {
    if decoded.len() != 36 {
        Err("Invalid address length"@)
    } else if crc16(decoded.subrange(0, 34)) != decoded[34] * 256 + decoded[35] {
        Err("Invalid address checksum"@)
    } else {
        Ok((byte_as_signed(decoded[1]), decoded.subrange(2, 34)))
    }
}

/// What a text in the padded form denotes, given what the URL-safe and the standard base64
/// alphabets decode it to: the URL-safe decoding where there is one, else the standard one.
pub open spec fn parse_padded_decodings(
    url_safe: Option<Seq<u8>>,
    standard: Option<Seq<u8>>,
) -> Result<(i8, Seq<u8>), Seq<char>> {
    match url_safe {
        Some(decoded) => parse_padded_bytes(decoded),
        None => match standard {
            Some(decoded) => parse_padded_bytes(decoded),
            None => Err("Invalid base64 encoding"@),
        },
    }
}

/// What a text in the delimited form denotes: it holds exactly one colon, before it the
/// workchain as a signed 8-bit decimal number, after it 64 hexadecimal digits. Any other text
/// is refused with the reason.
pub open spec fn parse_delimited_text(s: Seq<char>) -> Result<(i8, Seq<u8>), Seq<char>> {
    match s.index_of_first(':') {
        None => Err("unrecognized format"@),
        Some(colon) => {
            let head = s.subrange(0, colon);
            let tail = s.subrange(colon + 1, s.len() as int);
            if tail.contains(':') {
                Err("Invalid address format"@)
            } else {
                match parse_decimal_i8(head) {
                    None => Err("Invalid workchain"@),
                    Some(workchain) => if !is_hex_text(tail) {
                        Err("Invalid hex in address"@)
                    } else if tail.len() != 64 {
                        Err("Address must be 32 bytes"@)
                    } else {
                        Ok((workchain, hex_decoding(tail)))
                    },
                }
            }
        },
    }
}

/// What an address text denotes: workchain and payload, or the reason for which it is refused.
/// A text with a padded-form tag is read in the padded form, any other in the delimited form.
pub open spec fn parse_address_text(s: Seq<char>) -> Result<(i8, Seq<u8>), Seq<char>> {
    if has_padded_tag(s) {
        parse_padded_decodings(base64_url_safe_no_pad_decoding(s), base64_standard_decoding(s))
    } else {
        parse_delimited_text(s)
    }
}

/// The decimal digits of a number are digits, at least one, and denote the number.
pub proof fn lemma_decimal_digits(n: nat)
    ensures
        decimal_digits(n).len() >= 1,
        all_digits(decimal_digits(n)),
        digits_value(decimal_digits(n)) == n,
    decreases n,
{
    if n < 10 {
        let s = decimal_digits(n);
        assert(s.drop_last() =~= Seq::<char>::empty());
        assert(digits_value(s.drop_last()) == 0);
    } else {
        lemma_decimal_digits(n / 10);
        let head = decimal_digits(n / 10);
        let s = decimal_digits(n);
        assert(s.drop_last() =~= head);
        assert forall|i: int| 0 <= i < s.len() implies is_digit(#[trigger] s[i]) by {
            if i < head.len() {
                assert(s[i] == head[i]);
            }
        }
    }
}

/// Reading the decimal rendering of a signed 8-bit number gives the number back.
pub proof fn lemma_decimal_roundtrip(v: i8)
    ensures
        parse_decimal_i8(decimal_text(v as int)) == Some(v),
{
    let s = decimal_text(v as int);
    if v < 0 {
        let digits = decimal_digits((-(v as int)) as nat);
        lemma_decimal_digits((-(v as int)) as nat);
        assert(s.subrange(1, s.len() as int) =~= digits);
    } else {
        lemma_decimal_digits(v as nat);
        assert(is_digit(s[0]));
    }
}

/// Parsing the canonical text of a workchain and a 32-byte payload gives both back.
pub proof fn lemma_parse_canonical_text(workchain: i8, raw: Seq<u8>)
    requires
        raw.len() == 32,
    ensures
        parse_address_text(canonical_text(workchain, raw)) == Ok::<(i8, Seq<u8>), Seq<char>>(
            (workchain, raw),
        ),
{
    let head = decimal_text(workchain as int);
    let tail = hex_encoding(raw);
    let s = canonical_text(workchain, raw);
    let colon = head.len() as int;
    lemma_hex_roundtrip(raw);
    lemma_decimal_roundtrip(workchain);
    if workchain < 0 {
        lemma_decimal_digits((-(workchain as int)) as nat);
    } else {
        lemma_decimal_digits(workchain as nat);
    }
    assert(head.len() >= 1);
    assert(head[0] == '-' || is_digit(head[0]));
    assert(s[0] == head[0]);
    assert(!has_padded_tag(s));
    assert forall|j: int| 0 <= j < colon implies s[j] != ':' by {
        assert(s[j] == head[j]);
        if workchain < 0 {
            if j > 0 {
                assert(head[j] == decimal_digits((-(workchain as int)) as nat)[j - 1]);
            }
        }
    }
    assert(s[colon] == ':');
    s.index_of_first_ensures(':');
    assert(s.index_of_first(':') == Some(colon));
    assert(s.subrange(0, colon) =~= head);
    assert(s.subrange(colon + 1, s.len() as int) =~= tail);
    assert forall|j: int| 0 <= j < tail.len() implies tail[j] != ':' by {
        assert(hex_value(tail[j]) is Some);
    }
    assert(!tail.contains(':'));
}

} // verus!
