//! The name server identifier (NSID) that EDNS responses carry.
use vstd::prelude::*;
use vstd::string::*;
use vstd::utf8::*;

use crate::text::decimal;

verus! {

/// The largest number of bytes that an NSID payload can have: its length is sent as a `u16`.
pub const MAX_NSID_LEN: usize = 65535;

/// Why a text is not the hex encoding of any bytes.
#[derive(Clone, Copy, Debug, PartialEq, Eq, Structural)]
pub enum HexError {
    /// The byte at `index`, taken as a character, is no hex digit.
    InvalidHexCharacter { c: char, index: usize },
    /// Two digits make one byte, and one is left over.
    OddLength,
    /// The text does not have the length that was asked for.
    InvalidStringLength,
}

/// Why a payload was refused.
#[derive(Clone, Copy, Debug, PartialEq, Eq, Structural)]
pub enum NsidError {
    /// The text after `0x` is no hex encoding.
    InvalidHex(HexError),
    /// The payload does not fit an EDNS option.
    TooLarge,
}

/// Whether `b` is the ASCII code of a hex digit, of either case.
pub open spec fn is_hex_digit(b: u8) -> bool {
    ||| 0x30 <= b <= 0x39
    ||| 0x41 <= b <= 0x46
    ||| 0x61 <= b <= 0x66
}

/// What the hex digit `b` stands for.
pub open spec fn hex_value(b: u8) -> int {
    if b <= 0x39 {
        b - 0x30
    } else if b <= 0x46 {
        b - 0x41 + 10
    } else {
        b - 0x61 + 10
    }
}

/// The number of hex digits that `data` starts with.
pub open spec fn leading_hex_digits(data: Seq<u8>) -> nat
    decreases data.len(),
{
    if data.len() > 0 && is_hex_digit(data[0]) {
        1 + leading_hex_digits(data.drop_first())
    } else {
        0
    }
}

/// The bytes whose hex encoding is `data`, or why there are none.
pub open spec fn hex_decoded(data: Seq<u8>) -> Result<Seq<u8>, HexError> {
    let good = leading_hex_digits(data);
    if data.len() % 2 == 1 {
        Err(HexError::OddLength)
    } else if good < data.len() {
        Err(
            HexError::InvalidHexCharacter {
                c: data[good as int] as char,
                index: good as usize,
            },
        )
    } else {
        Ok(
            Seq::new(
                data.len() / 2,
                |i: int| (16 * hex_value(data[2 * i]) + hex_value(data[2 * i + 1])) as u8,
            ),
        )
    }
}

/// What the standard library's `Debug` shows for a character.
pub uninterp spec fn char_debug(c: char) -> Seq<char>;

/// The text of a decoding error.
pub open spec fn hex_error_message(err: HexError) -> Seq<char> {
    match err {
        HexError::InvalidHexCharacter { c, index } => "Invalid character "@ + char_debug(c)
            + " at position "@ + decimal(index as nat),
        HexError::OddLength => "Odd number of digits"@,
        HexError::InvalidStringLength => "Invalid string length"@,
    }
}

/// `hex::decode`: an odd number of bytes is refused first, then the first byte that is no hex
/// digit; otherwise each pair of digits makes one byte, the first digit its upper half.
#[verifier::external_body]
fn hex_decode(data: &[u8]) -> (res: Result<Vec<u8>, HexError>)
    ensures
        match res {
            Ok(bytes) => hex_decoded(data@) == Ok::<Seq<u8>, HexError>(bytes@),
            Err(err) => hex_decoded(data@) == Err::<Seq<u8>, HexError>(err),
        },
{
    hex::decode(data).map_err(|e| match e {
        hex::FromHexError::InvalidHexCharacter { c, index } => {
            HexError::InvalidHexCharacter { c, index }
        },
        hex::FromHexError::OddLength => HexError::OddLength,
        hex::FromHexError::InvalidStringLength => HexError::InvalidStringLength,
    })
}

/// `Display` of `hex::FromHexError`: a fixed text for each kind of error, with the offending
/// character as the standard library's `Debug` shows it, and its position in decimal.
#[verifier::external_body]
fn hex_error_text(err: &HexError) -> (res: String)
    ensures
        res@ == match *err {
            HexError::InvalidHexCharacter { c, index } => "Invalid character "@ + char_debug(c)
                + " at position "@ + decimal(index as nat),
            HexError::OddLength => "Odd number of digits"@,
            HexError::InvalidStringLength => "Invalid string length"@,
        },
{
    match *err {
        HexError::InvalidHexCharacter { c, index } => {
            hex::FromHexError::InvalidHexCharacter { c, index }.to_string()
        },
        HexError::OddLength => hex::FromHexError::OddLength.to_string(),
        HexError::InvalidStringLength => hex::FromHexError::InvalidStringLength.to_string(),
    }
}

impl NsidError {
    /// The text of the error.
    pub open spec fn text(self) -> Seq<char> {
        match self {
            NsidError::InvalidHex(err) => "invalid NSID hex encoding: "@ + hex_error_message(err),
            NsidError::TooLarge => "NSID EDNS payload too large"@,
        }
    }

    /// The text of the error.
    pub fn message(&self) -> (res: String)
        ensures
            res@ == self.text(),
    {
        match self {
            NsidError::InvalidHex(err) => {
                let mut res = "invalid NSID hex encoding: ".to_string();
                res.append(hex_error_text(err).as_str());
                res
            },
            NsidError::TooLarge => "NSID EDNS payload too large".to_string(),
        }
    }
}

/// A payload that fits an EDNS option.
#[derive(Debug, PartialEq, Eq)]
pub struct NSIDPayload {
    bytes: Vec<u8>,
}

impl View for NSIDPayload {
    type V = Seq<u8>;

    closed spec fn view(&self) -> Seq<u8> {
        self.bytes@
    }
}

/// Accepts the bytes of a payload if they fit.
pub open spec fn fitting(bytes: Seq<u8>) -> Result<Seq<u8>, NsidError> {
    if bytes.len() <= MAX_NSID_LEN {
        Ok(bytes)
    } else {
        Err(NsidError::TooLarge)
    }
}

/// Whether a payload is written in hex.
pub open spec fn written_in_hex(raw: Seq<char>) -> bool {
    raw.len() >= 2 && raw[0] == '0' && raw[1] == 'x'
}

/// The bytes that the text of a payload stands for, before their number is looked at.
pub open spec fn payload_bytes(raw: Seq<char>) -> Result<Seq<u8>, HexError> {
    if written_in_hex(raw) {
        hex_decoded(encode_utf8(raw.skip(2)))
    } else {
        Ok(encode_utf8(raw))
    }
}

/// The payload that a text stands for, or why it is refused.
pub open spec fn parsed_payload(raw: Seq<char>) -> Result<Seq<u8>, NsidError> {
    match payload_bytes(raw) {
        Ok(bytes) => fitting(bytes),
        Err(err) => Err(NsidError::InvalidHex(err)),
    }
}

/// Whether the executable result `res` is the payload or the error that `spec` names.
pub open spec fn is_payload(
    res: Result<NSIDPayload, NsidError>,
    spec: Result<Seq<u8>, NsidError>,
) -> bool {
    match res {
        Ok(payload) => spec == Ok::<Seq<u8>, NsidError>(payload@),
        Err(err) => spec == Err::<Seq<u8>, NsidError>(err),
    }
}

impl NSIDPayload {
    #[verifier::type_invariant]
    spec fn fits(self) -> bool {
        self.bytes@.len() <= MAX_NSID_LEN
    }

    /// A payload of the given bytes, unless there are too many of them.
    pub fn new(bytes: Vec<u8>) -> (res: Result<NSIDPayload, NsidError>)
        ensures
            is_payload(res, fitting(bytes@)),
    {
        if bytes.len() > MAX_NSID_LEN {
            Err(NsidError::TooLarge)
        } else {
            Ok(NSIDPayload { bytes })
        }
    }

    /// The bytes of the payload: never more than an EDNS option can hold.
    pub fn as_bytes(&self) -> (res: &[u8])
        ensures
            res@ == self@,
            res@.len() <= MAX_NSID_LEN,
    {
        proof {
            use_type_invariant(&*self);
        }
        self.bytes.as_slice()
    }
}

/// The payload that `raw_payload` stands for: hex digits after `0x`, and otherwise the text
/// itself.
pub fn parse_nsid_payload(raw_payload: &str) -> (res: Result<NSIDPayload, NsidError>)
    ensures
        is_payload(res, parsed_payload(raw_payload@)),
{
    let len = raw_payload.unicode_len();
    if len >= 2 && raw_payload.get_char(0) == '0' && raw_payload.get_char(1) == 'x' {
        let hex_str = raw_payload.substring_char(2, len);
        assert(hex_str@ =~= raw_payload@.skip(2));
        match hex_decode(hex_str.as_bytes()) {
            Ok(bytes) => NSIDPayload::new(bytes),
            Err(err) => Err(NsidError::InvalidHex(err)),
        }
    } else {
        NSIDPayload::new(raw_payload.as_bytes_vec())
    }
}

/// Whether `c` is a hex digit, of either case, that stands for `v`.
pub open spec fn is_hex_char(c: char, v: int) -> bool {
    (c as int) < 128 && is_hex_digit(c as u8) && hex_value(c as u8) == v
}

/// The half of a byte that the hex digit at position `i` stands for: the upper half comes first.
pub open spec fn half_byte(bytes: Seq<u8>, i: int) -> int {
    if i % 2 == 0 {
        bytes[i / 2] as int / 16
    } else {
        bytes[i / 2] as int % 16
    }
}

/// Whether `digits` are the hex digits of `bytes`, each of either case.
pub open spec fn spells(digits: Seq<char>, bytes: Seq<u8>) -> bool {
    &&& digits.len() == 2 * bytes.len()
    &&& forall|i: int|
        0 <= i < digits.len() ==> is_hex_char(#[trigger] digits[i], half_byte(bytes, i))
}

/// The character of the hex digit `v`, in lower case.
pub open spec fn hex_char(v: int) -> char {
    if v < 10 {
        (v + 0x30) as char
    } else {
        (v - 10 + 0x61) as char
    }
}

/// The hex digits of `bytes`, in lower case.
pub open spec fn hex_encoded(bytes: Seq<u8>) -> Seq<char> {
    Seq::new(2 * bytes.len(), |i: int| hex_char(half_byte(bytes, i)))
}

proof fn all_hex_digits(data: Seq<u8>)
    requires
        forall|i: int| 0 <= i < data.len() ==> is_hex_digit(#[trigger] data[i]),
    ensures
        leading_hex_digits(data) == data.len(),
    decreases data.len(),
{
    if data.len() > 0 {
        assert forall|i: int| 0 <= i < data.drop_first().len() implies is_hex_digit(
            #[trigger] data.drop_first()[i],
        ) by {
            assert(data.drop_first()[i] == data[i + 1]);
        }
        all_hex_digits(data.drop_first());
    }
}

proof fn hex_char_is_ascii(c: char, v: int)
    requires
        is_hex_char(c, v),
    ensures
        '\0' <= c <= '\u{7f}',
{
}

/// Hex digits of either case, mixed as they may be, read back as the bytes that they spell, where
/// those fit.
pub proof fn hex_payload_reads_back(digits: Seq<char>, bytes: Seq<u8>)
    requires
        spells(digits, bytes),
        bytes.len() <= MAX_NSID_LEN,
    ensures
        parsed_payload(seq!['0', 'x'] + digits) == Ok::<Seq<u8>, NsidError>(bytes),
{
    let raw = seq!['0', 'x'] + digits;
    assert(raw.skip(2) =~= digits);
    spelled_bytes_are_decoded(digits, bytes);
}

proof fn spelled_bytes_are_decoded(digits: Seq<char>, bytes: Seq<u8>)
    requires
        spells(digits, bytes),
    ensures
        hex_decoded(encode_utf8(digits)) == Ok::<Seq<u8>, HexError>(bytes),
{
    assert forall|i: int| 0 <= i < digits.len() implies '\0' <= #[trigger] digits[i]
        <= '\u{7f}' by {
        hex_char_is_ascii(digits[i], half_byte(bytes, i));
    }
    is_ascii_chars_encode_utf8(digits);
    let data = encode_utf8(digits);
    assert forall|i: int| 0 <= i < data.len() implies is_hex_digit(#[trigger] data[i]) by {
        assert(data[i] == digits[i] as u8);
    }
    all_hex_digits(data);
    let decoded = Seq::new(
        data.len() / 2,
        |i: int| (16 * hex_value(data[2 * i]) + hex_value(data[2 * i + 1])) as u8,
    );
    assert forall|i: int| 0 <= i < bytes.len() implies decoded[i] == bytes[i] by {
        assert(data[2 * i] == digits[2 * i] as u8);
        assert(data[2 * i + 1] == digits[2 * i + 1] as u8);
        assert(hex_value(data[2 * i]) == bytes[i] as int / 16);
        assert(hex_value(data[2 * i + 1]) == bytes[i] as int % 16);
    }
    assert(decoded =~= bytes);
}

/// Every payload that fits can be given in hex.
pub proof fn every_payload_has_hex_digits(bytes: Seq<u8>)
    requires
        bytes.len() <= MAX_NSID_LEN,
    ensures
        spells(hex_encoded(bytes), bytes),
        parsed_payload(seq!['0', 'x'] + hex_encoded(bytes)) == Ok::<Seq<u8>, NsidError>(bytes),
{
    hex_payload_reads_back(hex_encoded(bytes), bytes);
}

/// A text that does not start with `0x` stands for its own bytes, and is refused only for its
/// length.
pub proof fn plain_payload_is_its_text(raw: Seq<char>)
    requires
        !written_in_hex(raw),
    ensures
        parsed_payload(raw) == fitting(encode_utf8(raw)),
{
}

/// The bytes of a name server identifier are accepted, as they are, just where there are at most
/// 65535 of them.
pub proof fn payloads_fit_in_two_bytes_of_length(bytes: Vec<u8>, res: Result<NSIDPayload, NsidError>)
    requires
        call_ensures(NSIDPayload::new, (bytes,), res),
    ensures
        match res {
            Ok(payload) => bytes@.len() <= 65535 && payload@ == bytes@,
            Err(err) => bytes@.len() > 65535 && err == NsidError::TooLarge,
        },
{
}

/// A text that does not start with `0x` is a payload of its own bytes, where they fit.
pub proof fn plain_text_is_sent_as_it_is(raw: &str, res: Result<NSIDPayload, NsidError>)
    requires
        call_ensures(parse_nsid_payload, (raw,), res),
        !(raw@.len() >= 2 && raw@[0] == '0' && raw@[1] == 'x'),
    ensures
        match res {
            Ok(payload) => encode_utf8(raw@).len() <= 65535 && payload@ == encode_utf8(raw@),
            Err(err) => encode_utf8(raw@).len() > 65535 && err == NsidError::TooLarge,
        },
{
}

/// What follows `0x` is a payload of the bytes that it spells in hex, where they fit.
pub proof fn hex_text_is_sent_as_its_bytes(
    raw: &str,
    bytes: Seq<u8>,
    res: Result<NSIDPayload, NsidError>,
)
    requires
        call_ensures(parse_nsid_payload, (raw,), res),
        raw@.len() >= 2,
        raw@[0] == '0',
        raw@[1] == 'x',
        spells(raw@.skip(2), bytes),
    ensures
        match res {
            Ok(payload) => bytes.len() <= 65535 && payload@ == bytes,
            Err(err) => bytes.len() > 65535 && err == NsidError::TooLarge,
        },
{
    spelled_bytes_are_decoded(raw@.skip(2), bytes);
}

proof fn leading_digits_end(data: Seq<u8>, i: int)
    requires
        0 <= i < data.len(),
        !is_hex_digit(data[i]),
        forall|k: int| 0 <= k < i ==> is_hex_digit(#[trigger] data[k]),
    ensures
        leading_hex_digits(data) == i,
    decreases i,
{
    if i > 0 {
        assert(is_hex_digit(data[0]));
        assert(data.drop_first()[i - 1] == data[i]);
        assert forall|k: int| 0 <= k < i - 1 implies is_hex_digit(
            #[trigger] data.drop_first()[k],
        ) by {
            assert(data.drop_first()[k] == data[k + 1]);
        }
        leading_digits_end(data.drop_first(), i - 1);
    }
}

/// After `0x` an odd number of bytes is refused, and otherwise the first byte that is no hex digit
/// is, with its position.
pub proof fn text_that_is_no_hex_is_refused(raw: &str, i: int, res: Result<NSIDPayload, NsidError>)
    requires
        call_ensures(parse_nsid_payload, (raw,), res),
        raw@.len() >= 2,
        raw@[0] == '0',
        raw@[1] == 'x',
    ensures
        ({
            let data = encode_utf8(raw@.skip(2));
            &&& data.len() % 2 == 1 ==> res == Err::<NSIDPayload, NsidError>(
                NsidError::InvalidHex(HexError::OddLength),
            )
            &&& data.len() % 2 == 0 && 0 <= i < data.len() && !is_hex_digit(data[i]) && (forall|
                k: int,
            |
                0 <= k < i ==> is_hex_digit(#[trigger] data[k])) ==> res == Err::<
                NSIDPayload,
                NsidError,
            >(
                NsidError::InvalidHex(
                    HexError::InvalidHexCharacter { c: data[i] as char, index: i as usize },
                ),
            )
        }),
{
    let data = encode_utf8(raw@.skip(2));
    if 0 <= i < data.len() && !is_hex_digit(data[i]) && (forall|k: int|
        0 <= k < i ==> is_hex_digit(#[trigger] data[k])) {
        leading_digits_end(data, i);
    }
}

/// The bytes of a payload are those that it was made of.
pub proof fn payloads_keep_their_bytes(
    bytes: Vec<u8>,
    payload: NSIDPayload,
    kept: &[u8],
)
    requires
        call_ensures(NSIDPayload::new, (bytes,), Ok(payload)),
        call_ensures(NSIDPayload::as_bytes, (&payload,), kept),
    ensures
        kept@ == bytes@,
{
}

/// A payload that is refused is told apart by its text: too large, or no hex and why.
pub proof fn refused_payloads_are_told_apart(err: &NsidError, res: String)
    requires
        call_ensures(NsidError::message, (err,), res),
    ensures
        res@ == match *err {
            NsidError::TooLarge => "NSID EDNS payload too large"@,
            NsidError::InvalidHex(HexError::OddLength) => "invalid NSID hex encoding: "@
                + "Odd number of digits"@,
            NsidError::InvalidHex(HexError::InvalidStringLength) => "invalid NSID hex encoding: "@
                + "Invalid string length"@,
            NsidError::InvalidHex(HexError::InvalidHexCharacter { c, index }) =>
                "invalid NSID hex encoding: "@ + ("Invalid character "@ + char_debug(c)
                    + " at position "@ + decimal(index as nat)),
        },
{
}

} // verus!
