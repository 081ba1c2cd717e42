//! Authenticated encryption with ChaCha20-Poly1305.

use chacha20poly1305::aead::{Aead, AeadCore, KeyInit, OsRng};
use chacha20poly1305::{ChaCha20Poly1305, Key, Nonce};
use vstd::prelude::*;

verus! {

/// `aead::Error`, carried through unopened.
#[verifier::external_type_specification]
#[verifier::external_body]
pub struct ExAeadError(chacha20poly1305::aead::Error);

/// The most bytes of one message that the cipher takes: 64 for each of the
/// `u32::MAX - 1` blocks that its block counter leaves for the message.
pub const MAX_MESSAGE_LEN: u64 = 274_877_906_816;

/// The ciphertext followed by the 16-byte tag that ChaCha20-Poly1305 gives for
/// `plaintext` under the 32-byte `key` and the 12-byte `nonce`, with no
/// associated data.
pub uninterp spec fn chacha20poly1305_sealed(key: Seq<u8>, nonce: Seq<u8>, plaintext: Seq<u8>) -> Seq<u8>;

/// The plaintext that ChaCha20-Poly1305 recovers from `sealed` under `key` and
/// `nonce`, or `None` where the tag does not match.
pub uninterp spec fn chacha20poly1305_opened(key: Seq<u8>, nonce: Seq<u8>, sealed: Seq<u8>) -> Option<Seq<u8>>;

/// Calls `AeadCore::generate_nonce` of `ChaCha20Poly1305` with the operating
/// system's generator.
///
/// Trusted: nothing but the length, which the type gives.
#[verifier::external_body]
pub(crate) fn fresh_nonce() -> (nonce: [u8; 12]) {
    ChaCha20Poly1305::generate_nonce(&mut OsRng).into()
}

/// Calls `KeyInit::new` and `Aead::encrypt` of `ChaCha20Poly1305`.
///
/// Trusted: a message of at most `MAX_MESSAGE_LEN` bytes is sealed; what
/// comes out is a function of key, nonce and message, is 16 bytes longer than
/// the message, and is opened again by `Aead::decrypt` under the same key and
/// nonce. The precondition leaves out the longer messages, on some of which
/// the call returns an error and on others of which its keystream runs out
/// and it panics, and the messages whose sealed form would not fit in
/// `usize`.
#[verifier::external_body]
pub(crate) fn seal(key: &[u8; 32], nonce: &[u8; 12], plaintext: &[u8]) -> (sealed: Result<Vec<u8>, chacha20poly1305::aead::Error>)
    requires
        plaintext@.len() <= MAX_MESSAGE_LEN,
        plaintext@.len() + 16 <= usize::MAX,
    ensures
        sealed is Ok,
        sealed matches Ok(bytes) ==> {
            &&& bytes@ == chacha20poly1305_sealed(key@, nonce@, plaintext@)
            &&& bytes@.len() == plaintext@.len() + 16
            &&& chacha20poly1305_opened(key@, nonce@, bytes@) == Some(plaintext@)
        },
{
    ChaCha20Poly1305::new(Key::from_slice(key)).encrypt(Nonce::from_slice(nonce), plaintext)
}

/// Calls `KeyInit::new` and `Aead::decrypt` of `ChaCha20Poly1305`.
///
/// Trusted: the outcome is a function of key, nonce and sealed bytes; a
/// plaintext that comes out is 16 bytes shorter than what went in. The
/// precondition leaves out what is longer than a sealed message can be: there
/// the keystream can run out after the tag has matched, and the call panics.
#[verifier::external_body]
pub(crate) fn open(key: &[u8; 32], nonce: &[u8; 12], sealed: &[u8]) -> (opened: Result<Vec<u8>, chacha20poly1305::aead::Error>)
    requires
        sealed@.len() <= MAX_MESSAGE_LEN + 16,
    ensures
        opened is Ok <==> chacha20poly1305_opened(key@, nonce@, sealed@) is Some,
        opened matches Ok(bytes) ==> {
            &&& chacha20poly1305_opened(key@, nonce@, sealed@) == Some(bytes@)
            &&& bytes@.len() + 16 == sealed@.len()
        },
{
    ChaCha20Poly1305::new(Key::from_slice(key)).decrypt(Nonce::from_slice(nonce), sealed)
}

} // verus!
