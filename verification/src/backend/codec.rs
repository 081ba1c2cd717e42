//! Base64 text with the `base64` crate, and UTF-8 text with std.

use base64::prelude::{Engine, BASE64_STANDARD, BASE64_URL_SAFE_NO_PAD};
use vstd::prelude::*;
use vstd::utf8::{decode_utf8, encode_utf8, valid_utf8};

verus! {

/// `base64::DecodeError`, carried through unopened.
#[verifier::external_type_specification]
#[verifier::external_body]
pub struct ExDecodeError(base64::DecodeError);

/// `std::string::FromUtf8Error`, carried through unopened.
#[verifier::external_type_specification]
#[verifier::external_body]
pub struct ExFromUtf8Error(std::string::FromUtf8Error);

/// Number of characters in the base64 text of `len` bytes.
pub open spec fn base64_len(len: nat, padded: bool) -> nat {
    if len % 3 == 0 {
        len / 3 * 4
    } else if padded {
        len / 3 * 4 + 4
    } else {
        len / 3 * 4 + len % 3 + 1
    }
}

/// Whether `byte` is a symbol of the alphabet: a letter, a digit, and `-` or
/// `_` in the URL-safe alphabet, `+` or `/` in the standard one.
pub open spec fn in_alphabet(url_safe: bool, byte: u8) -> bool {
    ||| 0x41 <= byte <= 0x5a
    ||| 0x61 <= byte <= 0x7a
    ||| 0x30 <= byte <= 0x39
    ||| url_safe && (byte == 0x2d || byte == 0x5f)
    ||| !url_safe && (byte == 0x2b || byte == 0x2f)
}

/// Whether `text` has the shape of base64 text. Without padding, every byte
/// is a symbol of the URL-safe alphabet and no single symbol is left over
/// after the groups of four. With padding, the length is a multiple of four
/// and every byte is a symbol of the standard alphabet, but for `=` in the
/// last two places.
pub open spec fn base64_shaped(url_safe: bool, text: Seq<u8>) -> bool {
    if url_safe {
        &&& text.len() % 4 != 1
        &&& forall|i: int| 0 <= i < text.len() ==> in_alphabet(true, #[trigger] text[i])
    } else {
        &&& text.len() % 4 == 0
        &&& forall|i: int|
            0 <= i < text.len() ==> in_alphabet(false, #[trigger] text[i]) || (text[i] == 0x3d && i
                + 2 >= text.len())
    }
}

/// The base64 text of `data`: in the URL-safe alphabet without padding where
/// `url_safe` holds, else in the standard alphabet with padding.
pub uninterp spec fn base64_text(url_safe: bool, data: Seq<u8>) -> Seq<char>;

/// The bytes that the base64 text `text`, given as bytes, stands for, or
/// `None` where it is not base64 in the alphabet and padding that `url_safe`
/// selects.
pub uninterp spec fn base64_data(url_safe: bool, text: Seq<u8>) -> Option<Seq<u8>>;

/// Calls `Engine::encode` of `BASE64_STANDARD`.
///
/// Trusted: the text is a function of the bytes alone, has the length that
/// `base64::encoded_len` computes with padding and the shape of padded
/// base64 text, and `Engine::decode` of the same engine gives the bytes back.
/// The call panics where that length does not fit in `usize`, which the
/// precondition leaves out.
#[verifier::external_body]
pub(crate) fn standard_encode(data: &[u8]) -> (text: String)
    requires
        base64_len(data@.len(), true) <= usize::MAX,
    ensures
        text@ == base64_text(false, data@),
        text@.len() == base64_len(data@.len(), true),
        base64_shaped(false, encode_utf8(text@)),
        base64_data(false, encode_utf8(text@)) == Some(data@),
{
    BASE64_STANDARD.encode(data)
}

/// Calls `Engine::encode` of `BASE64_URL_SAFE_NO_PAD`.
///
/// Trusted: as for the standard engine, with the length computed without
/// padding and the shape of base64 text without padding.
#[verifier::external_body]
pub(crate) fn url_safe_encode(data: &[u8]) -> (text: String)
    requires
        base64_len(data@.len(), false) <= usize::MAX,
    ensures
        text@ == base64_text(true, data@),
        text@.len() == base64_len(data@.len(), false),
        base64_shaped(true, encode_utf8(text@)),
        base64_data(true, encode_utf8(text@)) == Some(data@),
{
    BASE64_URL_SAFE_NO_PAD.encode(data)
}

/// Calls `Engine::decode` of `BASE64_STANDARD`.
///
/// Trusted: the outcome is a function of the text alone, and only text of
/// the shape of padded base64 is decoded.
#[verifier::external_body]
pub(crate) fn standard_decode(text: &[u8]) -> (data: Result<Vec<u8>, base64::DecodeError>)
    ensures
        data is Ok <==> base64_data(false, text@) is Some,
        data matches Ok(bytes) ==> base64_data(false, text@) == Some(bytes@),
        data is Ok ==> base64_shaped(false, text@),
{
    BASE64_STANDARD.decode(text)
}

/// Calls `Engine::decode` of `BASE64_URL_SAFE_NO_PAD`.
///
/// Trusted: the outcome is a function of the text alone, and only text of
/// the shape of base64 without padding is decoded.
#[verifier::external_body]
pub(crate) fn url_safe_decode(text: &[u8]) -> (data: Result<Vec<u8>, base64::DecodeError>)
    ensures
        data is Ok <==> base64_data(true, text@) is Some,
        data matches Ok(bytes) ==> base64_data(true, text@) == Some(bytes@),
        data is Ok ==> base64_shaped(true, text@),
{
    BASE64_URL_SAFE_NO_PAD.decode(text)
}

/// Calls `String::from_utf8`.
///
/// Trusted: it succeeds exactly on valid UTF-8, and the string then holds the
/// characters that the bytes encode.
#[verifier::external_body]
pub(crate) fn text_from_utf8(bytes: Vec<u8>) -> (text: Result<String, std::string::FromUtf8Error>)
    ensures
        text is Ok <==> valid_utf8(bytes@),
        text matches Ok(s) ==> s@ == decode_utf8(bytes@),
{
    String::from_utf8(bytes)
}

/// Whether `c` has the Unicode property `White_Space`.
pub open spec fn is_white_space(c: char) -> bool {
    ||| '\u{9}' <= c <= '\u{d}'
    ||| c == ' '
    ||| c == '\u{85}'
    ||| c == '\u{a0}'
    ||| c == '\u{1680}'
    ||| '\u{2000}' <= c <= '\u{200a}'
    ||| c == '\u{2028}'
    ||| c == '\u{2029}'
    ||| c == '\u{202f}'
    ||| c == '\u{205f}'
    ||| c == '\u{3000}'
}

/// `text` without the white space it starts with.
pub open spec fn trimmed_start(text: Seq<char>) -> Seq<char>
    decreases text.len(),
{
    if text.len() > 0 && is_white_space(text.first()) {
        trimmed_start(text.drop_first())
    } else {
        text
    }
}

/// `text` without the white space it ends with.
pub open spec fn trimmed_end(text: Seq<char>) -> Seq<char>
    decreases text.len(),
{
    if text.len() > 0 && is_white_space(text.last()) {
        trimmed_end(text.drop_last())
    } else {
        text
    }
}

/// `text` without the white space at either end.
pub open spec fn trimmed(text: Seq<char>) -> Seq<char> {
    trimmed_end(trimmed_start(text))
}

/// Calls `str::trim`.
///
/// Trusted: what comes out is the text without its leading and trailing
/// characters of the Unicode property `White_Space`.
#[verifier::external_body]
pub(crate) fn trim(text: &str) -> (inner: &str)
    ensures
        inner@ == trimmed(text@),
{
    text.trim()
}

} // verus!
