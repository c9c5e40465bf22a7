//! Text encodings used on the wire: base64 (standard and URL-safe without
//! padding), JSON string literals, and decimal numbers.

use base64::Engine;
use vstd::prelude::*;

use crate::error::{Refusal, SkyError};

verus! {

/// The text that the standard base64 engine (with padding) gives for `bytes`.
pub uninterp spec fn base64_standard(bytes: Seq<u8>) -> Seq<char>;

/// What the standard base64 engine decodes `text` to, or the text of the
/// error with which it refuses it.
pub uninterp spec fn base64_standard_decoded(text: Seq<char>) -> Result<Seq<u8>, Seq<char>>;

/// The text that the URL-safe base64 engine without padding gives for `bytes`.
pub uninterp spec fn base64_url(bytes: Seq<u8>) -> Seq<char>;

/// What the URL-safe base64 engine without padding decodes `text` to, or
/// the text of the error with which it refuses it.
pub uninterp spec fn base64_url_decoded(text: Seq<char>) -> Result<Seq<u8>, Seq<char>>;

/// A character of the URL-safe base64 alphabet: a letter, a digit, `-` or `_`.
pub open spec fn url_safe_char(c: char) -> bool {
    ('A' <= c && c <= 'Z') || ('a' <= c && c <= 'z') || ('0' <= c && c <= '9') || c == '-' || c
        == '_'
}

/// The lower-case hexadecimal digit of `n`, for `n` below 16.
pub open spec fn hex_digit(n: int) -> char {
    if n < 10 {
        ('0' as int + n) as char
    } else {
        ('a' as int + n - 10) as char
    }
}

/// How one character is written inside a JSON string literal: the quote and
/// the backslash get a backslash, the control characters below 0x20 get
/// their short escape (`\b`, `\t`, `\n`, `\f`, `\r`) or `\u00` and two
/// lower-case hexadecimal digits; every other character stands as it is.
pub open spec fn json_escaped_char(c: char) -> Seq<char> {
    if c == '"' {
        seq!['\\', '"']
    } else if c == '\\' {
        seq!['\\', '\\']
    } else if c == '\u{8}' {
        seq!['\\', 'b']
    } else if c == '\t' {
        seq!['\\', 't']
    } else if c == '\n' {
        seq!['\\', 'n']
    } else if c == '\u{c}' {
        seq!['\\', 'f']
    } else if c == '\r' {
        seq!['\\', 'r']
    } else if (c as int) < 0x20 {
        seq!['\\', 'u', '0', '0', hex_digit(c as int / 16), hex_digit(c as int % 16)]
    } else {
        seq![c]
    }
}

/// The characters of `text`, each escaped for a JSON string literal.
pub open spec fn json_escaped(text: Seq<char>) -> Seq<char>
    decreases text.len(),
{
    if text.len() == 0 {
        Seq::empty()
    } else {
        json_escaped(text.drop_last()) + json_escaped_char(text.last())
    }
}

/// The JSON string literal for `text`: its escaped characters between quotes.
pub open spec fn json_quoted(text: Seq<char>) -> Seq<char> {
    seq!['"'] + json_escaped(text) + seq!['"']
}

/// Inputs short enough for the base64 engines to size their output:
/// every byte sequence that fits in memory is.
pub open spec fn encodable(bytes: Seq<u8>) -> bool {
    bytes.len() <= usize::MAX / 2
}

/// `base64::engine::general_purpose::STANDARD.encode`.
/// Claimed: the text is a function of the bytes alone, and the same engine
/// decodes it back to the bytes (its output is canonical).
/// The engine panics only when the output length overflows `usize`, which
/// `encodable` rules out.
#[verifier::external_body]
pub(crate) fn standard_encode(bytes: &[u8]) -> (text: String)
    requires
        encodable(bytes@),
    ensures
        text@ == base64_standard(bytes@),
        (base64_standard_decoded(text@) == Ok::<Seq<u8>, Seq<char>>(bytes@)),
{
    base64::engine::general_purpose::STANDARD.encode(bytes)
}

/// `base64::engine::general_purpose::STANDARD.decode`, with its error turned
/// into the error's text.
/// Claimed: the outcome, error text included, is a function of the text alone.
#[verifier::external_body]
pub(crate) fn standard_decode(text: &str) -> (bytes: Result<Vec<u8>, String>)
    ensures
        match bytes {
            Ok(b) => base64_standard_decoded(text@) == Ok::<Seq<u8>, Seq<char>>(b@),
            Err(m) => base64_standard_decoded(text@) == Err::<Seq<u8>, Seq<char>>(m@),
        },
{
    match base64::engine::general_purpose::STANDARD.decode(text) {
        Ok(b) => Ok(b),
        Err(e) => Err(e.to_string()),
    }
}

/// `base64::engine::general_purpose::URL_SAFE_NO_PAD.encode`.
/// Claimed: the text is a function of the bytes alone, it is made of the
/// URL-safe alphabet without padding, and the same engine decodes it back to
/// the bytes.
#[verifier::external_body]
pub(crate) fn url_encode(bytes: &[u8]) -> (text: String)
    requires
        encodable(bytes@),
    ensures
        text@ == base64_url(bytes@),
        forall|i: int| 0 <= i < text@.len() ==> url_safe_char(#[trigger] text@[i]),
        (base64_url_decoded(text@) == Ok::<Seq<u8>, Seq<char>>(bytes@)),
{
    base64::engine::general_purpose::URL_SAFE_NO_PAD.encode(bytes)
}

/// `base64::engine::general_purpose::URL_SAFE_NO_PAD.decode`, with its error
/// turned into the error's text.
/// Claimed: the outcome, error text included, is a function of the text alone.
#[verifier::external_body]
pub(crate) fn url_decode(text: &str) -> (bytes: Result<Vec<u8>, String>)
    ensures
        match bytes {
            Ok(b) => base64_url_decoded(text@) == Ok::<Seq<u8>, Seq<char>>(b@),
            Err(m) => base64_url_decoded(text@) == Err::<Seq<u8>, Seq<char>>(m@),
        },
{
    match base64::engine::general_purpose::URL_SAFE_NO_PAD.decode(text) {
        Ok(b) => Ok(b),
        Err(e) => Err(e.to_string()),
    }
}

/// What decoding a standard base64 text gives: its bytes, or the refusal
/// that carries the decoder's message.
pub open spec fn standard_decoding(text: Seq<char>) -> Result<Seq<u8>, Refusal> {
    match base64_standard_decoded(text) {
        Ok(b) => Ok(b),
        Err(m) => Err(Refusal::InvalidBase64(m)),
    }
}

/// Decodes a standard base64 text.
pub(crate) fn decode_standard(text: &str) -> (bytes: Result<Vec<u8>, SkyError>)
    ensures
        bytes_result(bytes) == standard_decoding(text@),
{
    match standard_decode(text) {
        Ok(b) => Ok(b),
        Err(m) => Err(SkyError::InvalidBase64(m)),
    }
}

/// Decodes a URL-safe base64 text without padding.
pub(crate) fn decode_url(text: &str) -> (bytes: Result<Vec<u8>, SkyError>)
    ensures
        bytes_result(bytes) == decoded_text(text@),
{
    match url_decode(text) {
        Ok(b) => Ok(b),
        Err(m) => Err(SkyError::InvalidBase64(m)),
    }
}

/// The text of an outcome that carries text.
pub open spec fn text_result(r: Result<String, SkyError>) -> Result<Seq<char>, Refusal> {
    match r {
        Ok(t) => Ok(t@),
        Err(e) => Err(e@),
    }
}

/// The view of an outcome that carries nothing.
pub open spec fn unit_result(r: Result<(), SkyError>) -> Result<(), Refusal> {
    match r {
        Ok(()) => Ok(()),
        Err(e) => Err(e@),
    }
}

/// What encoding `bytes` in URL-safe base64 without padding gives: the text,
/// or `TooLong` where its length cannot be sized.
pub open spec fn url_encoding(bytes: Seq<u8>) -> Result<Seq<char>, Refusal> {
    if encodable(bytes) {
        Ok(base64_url(bytes))
    } else {
        Err(Refusal::TooLong)
    }
}

/// Encodes `bytes` in URL-safe base64 without padding; the text is made of
/// the URL-safe alphabet and decodes back to the bytes.
pub fn url_encode_checked(bytes: &[u8]) -> (text: Result<String, SkyError>)
    ensures
        text_result(text) == url_encoding(bytes@),
        text is Ok ==> base64_url_decoded(text.unwrap()@) == Ok::<Seq<u8>, Seq<char>>(bytes@),
        text is Ok ==> forall|i: int|
            0 <= i < text.unwrap()@.len() ==> url_safe_char(#[trigger] text.unwrap()@[i]),
{
    if bytes.len() <= usize::MAX / 2 {
        Ok(url_encode(bytes))
    } else {
        Err(SkyError::TooLong)
    }
}

/// `serde_json::to_string` on a string slice, with its error turned into `None`.
/// Claimed: the literal is `json_quoted` of the text (the escape table of
/// the crate's serializer), and serialising a string into memory never fails
/// (its serializer writes into a `Vec`).
#[verifier::external_body]
fn json_string_literal(text: &str) -> (literal: Option<String>)
    ensures
        literal is Some,
        literal.unwrap()@ == json_quoted(text@),
{
    serde_json::to_string(text).ok()
}

/// The JSON string literal for `text`.
pub(crate) fn json_string(text: &str) -> (literal: String)
    ensures
        literal@ == json_quoted(text@),
{
    json_string_literal(text).unwrap()
}

/// What decoding a URL-safe base64 text gives: its bytes.
pub open spec fn decoded_text(encoded: Seq<char>) -> Result<Seq<u8>, Refusal> {
    match base64_url_decoded(encoded) {
        Ok(b) => Ok(b),
        Err(m) => Err(Refusal::InvalidBase64(m)),
    }
}

/// The bytes of an outcome that carries bytes.
pub open spec fn bytes_result(r: Result<Vec<u8>, SkyError>) -> Result<Seq<u8>, Refusal> {
    match r {
        Ok(b) => Ok(b@),
        Err(e) => Err(e@),
    }
}

/// The decimal digit `d`.
pub open spec fn digit_text(d: int) -> Seq<char> {
    if d == 0 {
        "0"@
    } else if d == 1 {
        "1"@
    } else if d == 2 {
        "2"@
    } else if d == 3 {
        "3"@
    } else if d == 4 {
        "4"@
    } else if d == 5 {
        "5"@
    } else if d == 6 {
        "6"@
    } else if d == 7 {
        "7"@
    } else if d == 8 {
        "8"@
    } else {
        "9"@
    }
}

/// The decimal text of a byte, without leading zeros.
pub open spec fn decimal_text(n: u8) -> Seq<char> {
    if n < 10 {
        digit_text(n as int)
    } else if n < 100 {
        digit_text(n as int / 10) + digit_text(n as int % 10)
    } else {
        digit_text(n as int / 100) + digit_text((n as int / 10) % 10) + digit_text(n as int % 10)
    }
}

fn digit(d: u8) -> (text: &'static str)
    requires
        d < 10,
    ensures
        text@ == digit_text(d as int),
{
    if d == 0 {
        "0"
    } else if d == 1 {
        "1"
    } else if d == 2 {
        "2"
    } else if d == 3 {
        "3"
    } else if d == 4 {
        "4"
    } else if d == 5 {
        "5"
    } else if d == 6 {
        "6"
    } else if d == 7 {
        "7"
    } else if d == 8 {
        "8"
    } else {
        "9"
    }
}

/// The decimal text of `n`, as serde_json writes an integer.
pub fn decimal(n: u8) -> (text: String)
    ensures
        text@ == decimal_text(n),
{
    if n < 10 {
        String::from_str(digit(n))
    } else if n < 100 {
        let mut t = String::from_str(digit(n / 10));
        t.append(digit(n % 10));
        t
    } else {
        let mut t = String::from_str(digit(n / 100));
        t.append(digit((n / 10) % 10));
        t.append(digit(n % 10));
        t
    }
}

/// The first 32 bytes of `v` as an array.
pub(crate) fn array32(v: &Vec<u8>) -> (a: [u8; 32])
    requires
        v@.len() == 32,
    ensures
        a@ == v@,
{
    let mut a = [0u8; 32];
    let mut i: usize = 0;
    while i < 32
        invariant
            i <= 32,
            v@.len() == 32,
            forall|j: int| 0 <= j < i ==> a@[j] == v@[j],
        decreases 32 - i,
    {
        a[i] = v[i];
        i = i + 1;
    }
    assert(a@ =~= v@);
    a
}

/// The first 64 bytes of `v` as an array.
pub(crate) fn array64(v: &Vec<u8>) -> (a: [u8; 64])
    requires
        v@.len() == 64,
    ensures
        a@ == v@,
{
    let mut a = [0u8; 64];
    let mut i: usize = 0;
    while i < 64
        invariant
            i <= 64,
            v@.len() == 64,
            forall|j: int| 0 <= j < i ==> a@[j] == v@[j],
        decreases 64 - i,
    {
        a[i] = v[i];
        i = i + 1;
    }
    assert(a@ =~= v@);
    a
}

/// The first `n` bytes of `bytes`.
pub(crate) fn prefix(bytes: &[u8], n: usize) -> (out: Vec<u8>)
    requires
        n <= bytes@.len(),
    ensures
        out@ == bytes@.take(n as int),
{
    let mut out: Vec<u8> = Vec::new();
    let mut i: usize = 0;
    while i < n
        invariant
            i <= n,
            n <= bytes@.len(),
            out@ == bytes@.take(i as int),
        decreases n - i,
    {
        out.push(bytes[i]);
        i = i + 1;
        assert(out@ =~= bytes@.take(i as int));
    }
    out
}

} // verus!
