//! The ways in which an operation of the text engine can fail.

use vstd::prelude::*;

verus! {

/// Why an operation could not be carried out.
///
/// Every failure ends the operation at once; nothing is retried.
#[derive(Clone, Copy, Debug, PartialEq, Eq, Structural)]
pub enum TextError {
    /// The byte source does not exist.
    SourceNotFound,
    /// The key material holds fewer than 32 bytes.
    KeyTooShort,
    /// The 32 bytes of a public key do not encode a point on the curve.
    InvalidPublicKey,
    /// The format tag is unknown, or names an algorithm that cannot do what was asked.
    UnsupportedFormat,
    /// The text is not base64 in the alphabet that was asked for.
    CodecError,
    /// The signature does not have the fixed length of the selected algorithm.
    SignatureLengthMismatch,
    /// The cipher refuses a message this long.
    EncryptionFailed,
    /// The authentication tag does not match the envelope under this key.
    AuthenticationFailed,
    /// The decrypted bytes are not valid UTF-8 text.
    InvalidUtf8Output,
    /// The text does not spell a duration.
    InvalidDuration,
    /// The moment of expiry cannot be written as a count of seconds.
    ExpiryOutOfRange,
}

impl TextError {
    /// The text shown to the user for this error.
    pub fn message(&self) -> (text: &'static str)
        ensures
            text@ == self.message_spec(),
    {
        match self {
            TextError::SourceNotFound => "input file not found",
            TextError::KeyTooShort => "key material is shorter than 32 bytes",
            TextError::InvalidPublicKey => "public key is not a valid curve point",
            TextError::UnsupportedFormat => "Unsupported format",
            TextError::CodecError => "invalid base64 text",
            TextError::SignatureLengthMismatch => "signature has the wrong length",
            TextError::EncryptionFailed => "Encryption failed",
            TextError::AuthenticationFailed => "Decryption failed",
            TextError::InvalidUtf8Output => "decrypted bytes are not valid text",
            TextError::InvalidDuration => "invalid duration",
            TextError::ExpiryOutOfRange => "expiry is out of range",
        }
    }

    /// The message of each error.
    pub open spec fn message_spec(&self) -> Seq<char> {
        match self {
            TextError::SourceNotFound => "input file not found"@,
            TextError::KeyTooShort => "key material is shorter than 32 bytes"@,
            TextError::InvalidPublicKey => "public key is not a valid curve point"@,
            TextError::UnsupportedFormat => "Unsupported format"@,
            TextError::CodecError => "invalid base64 text"@,
            TextError::SignatureLengthMismatch => "signature has the wrong length"@,
            TextError::EncryptionFailed => "Encryption failed"@,
            TextError::AuthenticationFailed => "Decryption failed"@,
            TextError::InvalidUtf8Output => "decrypted bytes are not valid text"@,
            TextError::InvalidDuration => "invalid duration"@,
            TextError::ExpiryOutOfRange => "expiry is out of range"@,
        }
    }
}

} // verus!
