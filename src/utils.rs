use vstd::prelude::*;

use crate::error::Error;

verus! {

/// The text that data-encoding's `BASE32HEX_NOPAD` makes of some bytes.
pub uninterp spec fn base32hex_nopad_of(b: Seq<u8>) -> Seq<char>;

/// The text that data-encoding's `BASE64` makes of some bytes.
pub uninterp spec fn base64_of(b: Seq<u8>) -> Seq<char>;

/// The text that data-encoding's `BASE64_NOPAD` makes of some bytes.
pub uninterp spec fn base64_nopad_of(b: Seq<u8>) -> Seq<char>;

/// The text that base58's `to_base58` makes of some bytes.
pub uninterp spec fn base58_of(b: Seq<u8>) -> Seq<char>;

/// A digit of base32hex: `0-9A-V`.
pub open spec fn is_base32hex_char(c: char) -> bool {
    ('0' <= c && c <= '9') || ('A' <= c && c <= 'V')
}

/// A digit of base64: `A-Za-z0-9+/`.
pub open spec fn is_base64_char(c: char) -> bool {
    ('A' <= c && c <= 'Z') || ('a' <= c && c <= 'z') || ('0' <= c && c <= '9') || c == '+' || c
        == '/'
}

/// A digit of base58: the alphanumerics without `0`, `O`, `I` and `l`.
pub open spec fn is_base58_char(c: char) -> bool {
    ||| ('1' <= c && c <= '9')
    ||| ('A' <= c && c <= 'Z' && c != 'I' && c != 'O')
    ||| ('a' <= c && c <= 'z' && c != 'l')
}

/// How many `=` pad the base64 text of `n` bytes.
pub open spec fn base64_pad_len(n: nat) -> nat {
    ((3 - n % 3) % 3) as nat
}

/// The bytes of a version-7 UUID: version 7, RFC 4122 variant.
pub open spec fn is_uuid_v7_bytes(b: Seq<u8>) -> bool {
    &&& b.len() == 16
    &&& b[6] / 16 == 7
    &&& b[8] / 64 == 2
}

/// Relies on uuid's `Uuid::now_v7`: a version-7 UUID from the current time
/// and random bits, as its 16 bytes.
#[verifier::external_body]
fn now_v7_bytes() -> (r: Vec<u8>)
    ensures
        is_uuid_v7_bytes(r@),
{
    uuid::Uuid::now_v7().as_bytes().to_vec()
}

/// Relies on data-encoding's `BASE32HEX_NOPAD.encode`: `0-9A-V`, 8 bits
/// to 5, no padding; its `encode_len` asserts the input bound.
#[verifier::external_body]
fn encode_base32hex_nopad(b: &Vec<u8>) -> (r: String)
    requires
        b@.len() <= usize::MAX / 512,
    ensures
        r@ == base32hex_nopad_of(b@),
        r@.len() == (8 * b@.len() + 4) / 5,
        forall|i: int| 0 <= i < r@.len() ==> is_base32hex_char(#[trigger] r@[i]),
{
    data_encoding::BASE32HEX_NOPAD.encode(b)
}

/// Relies on data-encoding's `BASE64.encode`: 3 bytes to 4 digits, the
/// last group padded with `=`; its `encode_len` asserts the input bound.
#[verifier::external_body]
fn encode_base64(b: &Vec<u8>) -> (r: String)
    requires
        b@.len() <= usize::MAX / 512,
    ensures
        r@ == base64_of(b@),
        r@.len() == 4 * ((b@.len() + 2) / 3),
        forall|i: int|
            0 <= i < r@.len() ==> if i < r@.len() - base64_pad_len(b@.len()) {
                is_base64_char(#[trigger] r@[i])
            } else {
                r@[i] == '='
            },
{
    data_encoding::BASE64.encode(b)
}

/// Relies on data-encoding's `BASE64_NOPAD.encode`: 6 bits a digit, no
/// padding; its `encode_len` asserts the input bound.
#[verifier::external_body]
fn encode_base64_nopad(b: &Vec<u8>) -> (r: String)
    requires
        b@.len() <= usize::MAX / 512,
    ensures
        r@ == base64_nopad_of(b@),
        r@.len() == (8 * b@.len() + 5) / 6,
        forall|i: int| 0 <= i < r@.len() ==> is_base64_char(#[trigger] r@[i]),
{
    data_encoding::BASE64_NOPAD.encode(b)
}

/// Relies on base58's `ToBase58::to_base58` on a byte slice: every digit
/// comes from its alphabet.
#[verifier::external_body]
fn encode_base58(b: &Vec<u8>) -> (r: String)
    ensures
        r@ == base58_of(b@),
        forall|i: int| 0 <= i < r@.len() ==> is_base58_char(#[trigger] r@[i]),
{
    base58::ToBase58::to_base58(b.as_slice())
}

/// A fresh time-ordered identifier in base32hex, without padding.
pub fn b32_hex() -> (r: Result<String, Error>)
    ensures
        r matches Ok(s) && exists|b: Seq<u8>| is_uuid_v7_bytes(b) && s@ == #[trigger] base32hex_nopad_of(b),
        r matches Ok(s) ==> s@.len() == 26 && forall|i: int| 0 <= i < 26 ==> is_base32hex_char(#[trigger] s@[i]),
{
    let bytes = now_v7_bytes();
    Ok(encode_base32hex_nopad(&bytes))
}

/// A fresh time-ordered identifier in base64, with padding.
pub fn b64() -> (r: Result<String, Error>)
    ensures
        r matches Ok(s) && exists|b: Seq<u8>| is_uuid_v7_bytes(b) && s@ == #[trigger] base64_of(b),
        r matches Ok(s) ==> s@.len() == 24 && s@[22] == '=' && s@[23] == '=' && forall|i: int|
            0 <= i < 22 ==> is_base64_char(#[trigger] s@[i]),
{
    let bytes = now_v7_bytes();
    Ok(encode_base64(&bytes))
}

/// A fresh time-ordered identifier in base64, without padding.
pub fn b64u() -> (r: Result<String, Error>)
    ensures
        r matches Ok(s) && exists|b: Seq<u8>| is_uuid_v7_bytes(b) && s@ == #[trigger] base64_nopad_of(b),
        r matches Ok(s) ==> s@.len() == 22 && forall|i: int| 0 <= i < 22 ==> is_base64_char(#[trigger] s@[i]),
{
    let bytes = now_v7_bytes();
    Ok(encode_base64_nopad(&bytes))
}

/// A fresh time-ordered identifier in base58.
pub fn b58() -> (r: Result<String, Error>)
    ensures
        r matches Ok(s) && exists|b: Seq<u8>| is_uuid_v7_bytes(b) && s@ == #[trigger] base58_of(b),
        r matches Ok(s) ==> forall|i: int| 0 <= i < s@.len() ==> is_base58_char(#[trigger] s@[i]),
{
    let bytes = now_v7_bytes();
    Ok(encode_base58(&bytes))
}

} // verus!
