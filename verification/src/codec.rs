//! The encodings and primitives that other crates supply: form
//! percent-encoding (`url`), Base64 (`base64`), HMAC-SHA512 (`hmac`, `sha2`)
//! and JSON text (`serde_json`).
//!
//! Every function in this module that carries `external_body` is believed, not
//! proved: its body does nothing but call into the other crate and hand the
//! answer on as plain values, and its contract is the reading of that crate's
//! documentation and source which the rest of the library relies on.

use vstd::prelude::*;
use hmac::Mac;

verus! {

/// The longest input, in bytes, that is handed to the Base64 coder. Four
/// times this length, plus a final group, still fits in a `usize` on every
/// supported machine, which the coder needs to size its output.
pub const BASE64_INPUT_MAX: usize = 0x3fff_fff0;

// ---------------------------------------------------------------------------
// application/x-www-form-urlencoded
// ---------------------------------------------------------------------------

/// The bytes that the form encoding copies as they are: ASCII letters and
/// digits and `*`, `-`, `.`, `_`.
pub open spec fn form_unreserved(b: u8) -> bool {
    ||| b == 0x2a
    ||| b == 0x2d
    ||| b == 0x2e
    ||| b == 0x5f
    ||| (0x30 <= b && b <= 0x39)
    ||| (0x41 <= b && b <= 0x5a)
    ||| (0x61 <= b && b <= 0x7a)
}

/// The upper-case hexadecimal digit for `n`.
pub open spec fn hex_upper(n: nat) -> char
    recommends
        n < 16,
{
    if n < 10 {
        ((0x30 + n) as u8) as char
    } else {
        ((0x41 + n - 10) as u8) as char
    }
}

/// How the form encoding writes one byte: unchanged, `+` for a space, or a
/// percent sign and two upper-case hexadecimal digits.
pub open spec fn form_urlencoded_byte(b: u8) -> Seq<char> {
    if form_unreserved(b) {
        seq![b as char]
    } else if b == 0x20 {
        seq!['+']
    } else {
        seq!['%', hex_upper((b / 16) as nat), hex_upper((b % 16) as nat)]
    }
}

/// The form encoding of a byte string: the encodings of its bytes, in order.
pub open spec fn form_urlencoded(bytes: Seq<u8>) -> Seq<char>
    decreases bytes.len(),
{
    if bytes.len() == 0 {
        Seq::empty()
    } else {
        form_urlencoded(bytes.drop_last()) + form_urlencoded_byte(bytes.last())
    }
}

/// `url::form_urlencoded::byte_serialize`, collected into one string.
///
/// Believed of it: the result is the `application/x-www-form-urlencoded`
/// serialisation of `bytes` as [`form_urlencoded`] spells it out.
#[verifier::external_body]
pub(crate) fn form_urlencode(bytes: &[u8]) -> (r: String)
    ensures
        r@ == form_urlencoded(bytes@),
{
    url::form_urlencoded::byte_serialize(bytes).collect()
}

// ---------------------------------------------------------------------------
// Base64
// ---------------------------------------------------------------------------

/// The standard, padded Base64 text of a byte string, as `base64::encode`
/// produces it.
pub uninterp spec fn base64_text(bytes: Seq<u8>) -> Seq<char>;

/// The bytes that `base64::decode` reads out of a Base64 text given as bytes,
/// or `None` where it rejects the text.
pub uninterp spec fn base64_bytes(text: Seq<u8>) -> Option<Seq<u8>>;

/// The reason `base64::decode` gives for rejecting its input.
#[verifier::external_type_specification]
#[verifier::external_body]
pub struct ExDecodeError(base64::DecodeError);

/// `base64::encode`.
///
/// Believed of it: the result depends on `bytes` alone. Inputs so long that
/// the coder could not size its output are kept out.
#[verifier::external_body]
pub(crate) fn base64_encode(bytes: &[u8]) -> (r: String)
    requires
        bytes@.len() <= BASE64_INPUT_MAX,
    ensures
        r@ == base64_text(bytes@),
{
    base64::encode(bytes)
}

/// `base64::decode`.
///
/// Believed of it: whether it accepts `text`, and the bytes it returns when
/// it does, depend on `text` alone. Inputs so long that the coder could not
/// size its output are kept out.
#[verifier::external_body]
pub(crate) fn base64_decode(text: &[u8]) -> (r: Result<Vec<u8>, base64::DecodeError>)
    requires
        text@.len() <= BASE64_INPUT_MAX,
    ensures
        match r {
            Ok(bytes) => base64_bytes(text@) == Some(bytes@),
            Err(_) => base64_bytes(text@) is None,
        },
{
    base64::decode(text)
}

// ---------------------------------------------------------------------------
// HMAC-SHA512
// ---------------------------------------------------------------------------

/// The HMAC-SHA512 authentication code of `message` under `key`.
pub uninterp spec fn hmac_sha512_code(key: Seq<u8>, message: Seq<u8>) -> Seq<u8>;

/// `hmac::Hmac::<sha2::Sha512>`: keyed with `new_varkey`, fed `message` with
/// `input`, and read out with `result().code()`.
///
/// Believed of it: the code depends on `key` and `message` alone and is 64
/// bytes long. `new_varkey` accepts a key of any length.
#[verifier::external_body]
pub(crate) fn hmac_sha512(key: &[u8], message: &[u8]) -> (code: Vec<u8>)
    ensures
        code@ == hmac_sha512_code(key@, message@),
        code@.len() == 64,
{
    let mut mac = hmac::Hmac::<sha2::Sha512>::new_varkey(key).expect(
        "HMAC can take key of any size",
    );
    mac.input(message);
    mac.result().code().to_vec()
}

// ---------------------------------------------------------------------------
// JSON text
// ---------------------------------------------------------------------------

/// The lower-case hexadecimal digit for `n`.
pub open spec fn hex_lower(n: nat) -> char
    recommends
        n < 16,
{
    if n < 10 {
        ((0x30 + n) as u8) as char
    } else {
        ((0x61 + n - 10) as u8) as char
    }
}

/// How one character stands inside a JSON string literal: the quotation
/// mark and the backslash behind a backslash, the control characters as
/// their short escapes or as `\u00` and two hexadecimal digits, and every
/// other character as it is.
pub open spec fn json_escaped_char(c: char) -> Seq<char> {
    if c == '"' {
        seq!['\\', '"']
    } else if c == '\\' {
        seq!['\\', '\\']
    } else if c == '\u{8}' {
        seq!['\\', 'b']
    } else if c == '\t' {
        seq!['\\', 't']
    } else if c == '\n' {
        seq!['\\', 'n']
    } else if c == '\u{c}' {
        seq!['\\', 'f']
    } else if c == '\r' {
        seq!['\\', 'r']
    } else if (c as u32) < 0x20 {
        seq![
            '\\',
            'u',
            '0',
            '0',
            hex_lower((c as u32 / 16) as nat),
            hex_lower((c as u32 % 16) as nat),
        ]
    } else {
        seq![c]
    }
}

/// The characters of a string as they stand inside a JSON string literal.
pub open spec fn json_escaped(s: Seq<char>) -> Seq<char>
    decreases s.len(),
{
    if s.len() == 0 {
        Seq::empty()
    } else {
        json_escaped_char(s.first()) + json_escaped(s.drop_first())
    }
}

/// The JSON string literal for a string: its escaped characters between
/// quotation marks.
pub open spec fn json_string_text(s: Seq<char>) -> Seq<char> {
    seq!['"'] + json_escaped(s) + seq!['"']
}

/// The members of a JSON object as `serde_json` reads them from a text: each
/// key with the compact JSON text of its value. Where the text is not one
/// JSON object, the diagnostic that `serde_json` gives.
pub uninterp spec fn json_object(text: Seq<char>) -> Result<
    Seq<(Seq<char>, Seq<char>)>,
    Seq<char>,
>;

/// The elements of a JSON array as `serde_json` reads them from a text, each
/// as compact JSON text. Where the text is not one JSON array, the
/// diagnostic that `serde_json` gives.
pub uninterp spec fn json_array(text: Seq<char>) -> Result<Seq<Seq<char>>, Seq<char>>;

/// The string that a JSON text denotes, as `serde_json` reads it. `None`
/// where the text is not one JSON string literal.
pub uninterp spec fn json_string(text: Seq<char>) -> Option<Seq<char>>;

/// `serde_json::to_string` on a string slice.
///
/// Believed of it: the result is the JSON string literal for `s` as
/// [`json_string_text`] spells it out. Writing a string into memory gives
/// the serialiser no cause to fail.
#[verifier::external_body]
pub(crate) fn json_quote(s: &str) -> (r: String)
    ensures
        r@ == json_string_text(s@),
{
    serde_json::to_string(s).unwrap_or_default()
}

/// `serde_json::from_str` into a `serde_json::Map`, whose members are handed
/// out each as its key and the `to_string` of its value; an error is handed
/// out as its `to_string`.
///
/// Believed of it: whether the text is read as an object, its members and
/// their order, and the diagnostic otherwise, depend on `text` alone.
#[verifier::external_body]
pub(crate) fn json_object_members(text: &str) -> (r: Result<Vec<(String, String)>, String>)
    ensures
        match r {
            Ok(members) => json_object(text@) == Ok::<_, Seq<char>>(members.deep_view()),
            Err(diagnostic) => json_object(text@) == Err::<Seq<(Seq<char>, Seq<char>)>, _>(
                diagnostic@,
            ),
        },
{
    let parsed = serde_json::from_str::<serde_json::Map<String, serde_json::Value>>(text);
    let map = parsed.map_err(|error| error.to_string())?;
    Ok(map.into_iter().map(|(key, value)| (key, value.to_string())).collect())
}

/// `serde_json::from_str` into a vector of `serde_json::Value`, whose
/// elements are handed out each as its `to_string`; an error is handed out
/// as its `to_string`.
///
/// Believed of it: whether the text is read as an array, its elements, and
/// the diagnostic otherwise, depend on `text` alone.
#[verifier::external_body]
pub(crate) fn json_array_items(text: &str) -> (r: Result<Vec<String>, String>)
    ensures
        match r {
            Ok(items) => json_array(text@) == Ok::<_, Seq<char>>(items.deep_view()),
            Err(diagnostic) => json_array(text@) == Err::<Seq<Seq<char>>, _>(diagnostic@),
        },
{
    let parsed = serde_json::from_str::<Vec<serde_json::Value>>(text);
    let items = parsed.map_err(|error| error.to_string())?;
    Ok(items.into_iter().map(|item| item.to_string()).collect())
}

/// `serde_json::from_str` into a `String`.
///
/// Believed of it: whether the text is read as a string literal, and the
/// string it denotes, depend on `text` alone.
#[verifier::external_body]
pub(crate) fn json_string_value(text: &str) -> (r: Option<String>)
    ensures
        match r {
            Some(s) => json_string(text@) == Some(s@),
            None => json_string(text@) is None,
        },
{
    serde_json::from_str::<String>(text).ok()
}

} // verus!
