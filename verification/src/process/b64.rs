//! Base64 encoding and decoding of a whole input.

use vstd::prelude::*;
use vstd::utf8::encode_utf8;
use crate::backend::codec::{
    base64_data, base64_len, base64_shaped, base64_text, standard_decode, standard_encode, trim,
    trimmed, url_safe_decode, url_safe_encode,
};
use crate::format::Base64Format;
use crate::error::TextError;

verus! {

/// Whether `format` selects the URL-safe alphabet without padding.
pub open spec fn url_safe(format: Base64Format) -> bool {
    format == Base64Format::UrlSafe
}

/// Whether the base64 text of `len` bytes has a length that fits in `usize`.
pub fn encodable(len: usize, padded: bool) -> (fits: bool)
    ensures
        fits == (base64_len(len as nat, padded) <= usize::MAX),
{
    let chunks: usize = len / 3;
    let rest: usize = len % 3;
    let extra: usize = if rest == 0 {
        0
    } else if padded {
        4
    } else {
        rest + 1
    };
    chunks <= (usize::MAX - extra) / 4
}

/// The base64 text of `input` in the given format.
///
/// Only an input so long that its text would not fit in memory is refused,
/// with `CodecError`.
pub fn process_base64_encode(input: &[u8], format: Base64Format) -> (text: Result<String, TextError>)
    ensures
        text is Ok <==> base64_len(input@.len(), !url_safe(format)) <= usize::MAX,
        text matches Ok(t) ==> {
            &&& t@ == base64_text(url_safe(format), input@)
            &&& t@.len() == base64_len(input@.len(), !url_safe(format))
            &&& base64_shaped(url_safe(format), encode_utf8(t@))
            &&& base64_data(url_safe(format), encode_utf8(t@)) == Some(input@)
        },
        text matches Err(e) ==> e == TextError::CodecError,
{
    match format {
        Base64Format::Standard => {
            if !encodable(input.len(), true) {
                return Err(TextError::CodecError);
            }
            Ok(standard_encode(input))
        },
        Base64Format::UrlSafe => {
            if !encodable(input.len(), false) {
                return Err(TextError::CodecError);
            }
            Ok(url_safe_encode(input))
        },
    }
}

/// What `process_base64_decode` returns: the bytes that `input`, without the
/// white space around it, stands for in the given format.
pub open spec fn decoded(input: Seq<char>, format: Base64Format) -> Option<Seq<u8>> {
    base64_data(url_safe(format), encode_utf8(trimmed(input)))
}

/// The bytes that the base64 text `input` stands for in the given format.
/// White space around the text is ignored; text that is not base64 in that
/// format is refused with `CodecError`, and so is all text that has not the
/// shape of the format: text in the other alphabet, or with padding where
/// there should be none, or without where there should be.
pub fn process_base64_decode(input: &str, format: Base64Format) -> (data: Result<Vec<u8>, TextError>)
    ensures
        match data {
            Ok(bytes) => decoded(input@, format) == Some(bytes@),
            Err(e) => decoded(input@, format) is None && e == TextError::CodecError,
        },
        data is Ok ==> base64_shaped(url_safe(format), encode_utf8(trimmed(input@))),
{
    let text = trim(input);
    let outcome = match format {
        Base64Format::Standard => standard_decode(text.as_bytes()),
        Base64Format::UrlSafe => url_safe_decode(text.as_bytes()),
    };
    match outcome {
        Ok(bytes) => Ok(bytes),
        Err(_) => Err(TextError::CodecError),
    }
}

} // verus!
