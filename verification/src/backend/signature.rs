//! Ed25519 signatures with `ed25519-dalek`.

use ed25519_dalek::{Signature, Signer, SigningKey, Verifier, VerifyingKey};
use rand::rngs::OsRng;
use vstd::prelude::*;

verus! {

/// `ed25519_dalek::SignatureError`, carried through unopened.
#[verifier::external_type_specification]
#[verifier::external_body]
pub struct ExSignatureError(ed25519_dalek::SignatureError);

/// The 32-byte public key that belongs to the 32-byte secret key `secret`.
pub uninterp spec fn ed25519_public_key(secret: Seq<u8>) -> Seq<u8>;

/// The 64-byte signature of `message` under the secret key `secret`.
pub uninterp spec fn ed25519_signature(secret: Seq<u8>, message: Seq<u8>) -> Seq<u8>;

/// Whether the 32 bytes `public` decompress to a point of the curve.
pub uninterp spec fn ed25519_is_point(public: Seq<u8>) -> bool;

/// Whether the public key `public` accepts `signature` for `message`.
pub uninterp spec fn ed25519_accepts(public: Seq<u8>, message: Seq<u8>, signature: Seq<u8>) -> bool;

/// Calls `SigningKey::generate` with the operating system's generator and
/// returns the secret key's bytes.
///
/// Trusted: nothing but the length, which the type gives.
#[verifier::external_body]
pub(crate) fn ed25519_fresh_secret() -> (secret: [u8; 32]) {
    SigningKey::generate(&mut OsRng).to_bytes()
}

/// Calls `SigningKey::from_bytes` and `SigningKey::verifying_key`, and returns
/// the public key's bytes.
///
/// Trusted: the public key is a function of the secret key alone, and it is
/// the compressed form of a curve point, so `VerifyingKey::from_bytes` takes it.
#[verifier::external_body]
pub(crate) fn ed25519_derive_public(secret: &[u8; 32]) -> (public: [u8; 32])
    ensures
        public@ == ed25519_public_key(secret@),
        ed25519_is_point(public@),
{
    SigningKey::from_bytes(secret).verifying_key().to_bytes()
}

/// Calls `VerifyingKey::from_bytes` and drops the key that comes out.
///
/// Trusted: success is a function of the 32 bytes alone.
#[verifier::external_body]
pub(crate) fn ed25519_check_point(public: &[u8; 32]) -> (checked: Result<(), ed25519_dalek::SignatureError>)
    ensures
        checked is Ok <==> ed25519_is_point(public@),
{
    VerifyingKey::from_bytes(public).map(|_| ())
}

/// Calls `SigningKey::from_bytes` and `Signer::sign`, and returns the
/// signature's bytes.
///
/// Trusted: Ed25519 signing is deterministic, so the signature is a function
/// of the secret key and the message; and the signature that comes out is
/// accepted by `Verifier::verify` under the public key of the same secret key.
#[verifier::external_body]
pub(crate) fn ed25519_sign(secret: &[u8; 32], message: &[u8]) -> (signature: [u8; 64])
    ensures
        signature@ == ed25519_signature(secret@, message@),
        ed25519_accepts(ed25519_public_key(secret@), message@, signature@),
{
    SigningKey::from_bytes(secret).sign(message).to_bytes()
}

/// Calls `VerifyingKey::from_bytes`, `Signature::from_bytes` and
/// `Verifier::verify`.
///
/// Trusted: the verdict is a function of the three byte strings alone; bytes
/// that are no curve point accept nothing.
#[verifier::external_body]
pub(crate) fn ed25519_verify(public: &[u8; 32], message: &[u8], signature: &[u8; 64]) -> (verdict: Result<(), ed25519_dalek::SignatureError>)
    ensures
        verdict is Ok <==> (ed25519_is_point(public@) && ed25519_accepts(public@, message@, signature@)),
{
    VerifyingKey::from_bytes(public)?.verify(message, &Signature::from_bytes(signature))
}

} // verus!
