//! The text engine: keyed hashing, signatures and authenticated encryption of
//! a byte string under key material of 32 bytes.

use vstd::prelude::*;
use vstd::slice::slice_to_vec;
use vstd::utf8::{decode_utf8, encode_utf8, valid_utf8};
use crate::backend::aead::{
    chacha20poly1305_opened, chacha20poly1305_sealed, fresh_nonce, open, seal, MAX_MESSAGE_LEN,
};
use crate::backend::codec::{
    base64_data, base64_len, base64_shaped, base64_text, text_from_utf8, url_safe_decode,
    url_safe_encode,
};
use crate::backend::hash::{blake3_keyed_hash, keyed_hash};
use crate::backend::signature::{
    ed25519_accepts, ed25519_check_point, ed25519_derive_public, ed25519_fresh_secret,
    ed25519_is_point, ed25519_public_key, ed25519_sign, ed25519_signature, ed25519_verify,
};
use crate::bytes::{joined, leading_bytes, same_bytes};
use crate::error::TextError;
use crate::format::TextSignFormat;
use crate::process::b64::encodable;
use crate::process::gen_pass::{is_password, process_gen_pass};

verus! {

/// Number of bytes of key material that every algorithm takes.
pub const KEY_LEN: usize = 32;

/// Number of bytes of a BLAKE3 digest.
pub const DIGEST_LEN: usize = 32;

/// Number of bytes of an Ed25519 signature.
pub const SIGNATURE_LEN: usize = 64;

/// Number of bytes of the nonce that an envelope starts with.
pub const NONCE_LEN: usize = 12;

/// Number of bytes of the authentication tag that an envelope ends with.
pub const TAG_LEN: usize = 16;

/// What loading key material from `bytes` takes from them: the first 32
/// bytes, or `KeyTooShort` where there are fewer.
pub open spec fn key_material(bytes: Seq<u8>) -> Result<Seq<u8>, TextError> {
    if bytes.len() < KEY_LEN {
        Err(TextError::KeyTooShort)
    } else {
        Ok(bytes.subrange(0, KEY_LEN as int))
    }
}

/// Signs a byte string.
pub trait TextSign {
    /// The signature of `data` under this key.
    spec fn signature(&self, data: Seq<u8>) -> Seq<u8>;

    /// Signs `data`. Signing cannot fail once the key is loaded.
    fn sign(&self, data: &[u8]) -> (sig: Vec<u8>)
        ensures
            sig@ == self.signature(data@),
    ;
}

/// Verifies a signature of a byte string.
pub trait TextVerify {
    /// The verdict on `sig` as a signature of `data` under this key: whether
    /// it is valid, or the reason why verification cannot be attempted.
    spec fn verdict(&self, data: Seq<u8>, sig: Seq<u8>) -> Result<bool, TextError>;

    /// Verifies `sig` against `data`. A wrong signature gives `Ok(false)`, not
    /// an error.
    fn verify(&self, data: &[u8], sig: &[u8]) -> (valid: Result<bool, TextError>)
        ensures
            valid == self.verdict(data@, sig@),
    ;
}

/// Builds a key from the contents of a key file.
pub trait KeyLoader: Sized {
    /// The 32 bytes of key material that this key holds.
    spec fn material(&self) -> Seq<u8>;

    /// The material that loading takes from `bytes`, or the reason why they
    /// are refused.
    spec fn loaded(bytes: Seq<u8>) -> Result<Seq<u8>, TextError>;

    /// Loads the key from `bytes`, the contents of the key file.
    fn load(bytes: &[u8]) -> (key: Result<Self, TextError>)
        ensures
            match key {
                Ok(k) => Self::loaded(bytes@) == Ok::<Seq<u8>, TextError>(k.material()),
                Err(e) => Self::loaded(bytes@) == Err::<Seq<u8>, TextError>(e),
            },
    ;
}

/// Makes fresh key material.
pub trait KeyGenerator {
    /// What holds of every list of key blobs that `generate` may return.
    spec fn generated(keys: Seq<Vec<u8>>) -> bool;

    /// Draws fresh key material: one blob for each key file to be written.
    fn generate() -> (keys: Vec<Vec<u8>>)
        ensures
            Self::generated(keys@),
    ;
}

/// The single key blob that a password makes: its bytes.
pub fn password_key(password: &str) -> (keys: Vec<Vec<u8>>)
    ensures
        keys@.len() == 1,
        keys@[0]@ == encode_utf8(password@),
{
    let mut keys: Vec<Vec<u8>> = Vec::new();
    keys.push(slice_to_vec(password.as_bytes()));
    keys
}

/// The two key blobs of the Ed25519 key pair with the secret key `secret`:
/// the secret key, then the public key derived from it.
pub fn key_pair(secret: &[u8; 32]) -> (keys: Vec<Vec<u8>>)
    ensures
        keys@.len() == 2,
        keys@[0]@ == secret@,
        keys@[1]@ == ed25519_public_key(secret@),
        Ed25519Signer::generated(keys@),
{
    let public = ed25519_derive_public(secret);
    let mut keys: Vec<Vec<u8>> = Vec::new();
    keys.push(slice_to_vec(secret.as_slice()));
    keys.push(slice_to_vec(public.as_slice()));
    keys
}

/// Encrypts a byte string.
pub trait TextEncrypt {
    /// Whether a message of `len` bytes can be encrypted on this machine.
    spec fn encryptable(len: nat) -> bool;

    /// Whether `envelope` is an encryption of `data` under this key.
    spec fn seals(&self, data: Seq<u8>, envelope: Seq<u8>) -> bool;

    /// Encrypts `data` under a nonce that is drawn afresh for each call.
    fn encrypt(&self, data: &[u8]) -> (envelope: Result<Vec<u8>, TextError>)
        ensures
            envelope is Ok <==> Self::encryptable(data@.len()),
            envelope matches Ok(bytes) ==> self.seals(data@, bytes@),
            envelope matches Err(e) ==> e == TextError::EncryptionFailed,
    ;
}

/// Decrypts an envelope.
pub trait TextDecrypt {
    /// Whether `envelope` is long enough to be taken apart.
    spec fn framed(envelope: Seq<u8>) -> bool;

    /// What decrypting `envelope` under this key gives: the plaintext, or
    /// `AuthenticationFailed`.
    spec fn opens(&self, envelope: Seq<u8>) -> Result<Seq<u8>, TextError>;

    /// Decrypts `envelope`. No plaintext is returned unless the tag matches.
    fn decrypt(&self, envelope: &[u8]) -> (plain: Result<Vec<u8>, TextError>)
        requires
            Self::framed(envelope@),
        ensures
            match plain {
                Ok(bytes) => self.opens(envelope@) == Ok::<Seq<u8>, TextError>(bytes@),
                Err(e) => self.opens(envelope@) == Err::<Seq<u8>, TextError>(e),
            },
    ;
}

/// A key for keyed hashing with BLAKE3.
pub struct Blake3 {
    key: [u8; 32],
}

impl View for Blake3 {
    type V = Seq<u8>;

    closed spec fn view(&self) -> Seq<u8> {
        self.key@
    }
}

impl TextSign for Blake3 {
    open spec fn signature(&self, data: Seq<u8>) -> Seq<u8> {
        blake3_keyed_hash(self@, data)
    }

    /// The digest has 32 bytes.
    fn sign(&self, data: &[u8]) -> (sig: Vec<u8>)
        ensures
            sig@.len() == DIGEST_LEN,
    {
        let digest = keyed_hash(&self.key, data);
        slice_to_vec(digest.as_slice())
    }
}

impl TextVerify for Blake3 {
    /// A signature of any other length than the digest's is simply not the
    /// digest: the verdict is `Ok(false)`.
    open spec fn verdict(&self, data: Seq<u8>, sig: Seq<u8>) -> Result<bool, TextError> {
        Ok(sig == blake3_keyed_hash(self@, data))
    }

    fn verify(&self, data: &[u8], sig: &[u8]) -> (valid: Result<bool, TextError>) {
        let digest = keyed_hash(&self.key, data);
        Ok(same_bytes(digest.as_slice(), sig))
    }
}

impl KeyLoader for Blake3 {
    open spec fn material(&self) -> Seq<u8> {
        self@
    }

    open spec fn loaded(bytes: Seq<u8>) -> Result<Seq<u8>, TextError> {
        key_material(bytes)
    }

    fn load(bytes: &[u8]) -> (key: Result<Self, TextError>) {
        if bytes.len() < KEY_LEN {
            return Err(TextError::KeyTooShort);
        }
        Ok(Blake3 { key: leading_bytes::<32>(bytes) })
    }
}

impl KeyGenerator for Blake3 {
    /// One blob of 32 printable characters: letters, digits and symbols, at
    /// least one of each.
    open spec fn generated(keys: Seq<Vec<u8>>) -> bool {
        keys.len() == 1 && is_password(keys[0]@, KEY_LEN as nat, true, true, true, true)
    }

    fn generate() -> (keys: Vec<Vec<u8>>) {
        let password = process_gen_pass(32, true, true, true, true);
        password_key(password.as_str())
    }
}

/// The private half of an Ed25519 key pair: the 32-byte seed.
pub struct Ed25519Signer {
    key: [u8; 32],
}

impl View for Ed25519Signer {
    type V = Seq<u8>;

    closed spec fn view(&self) -> Seq<u8> {
        self.key@
    }
}

impl Ed25519Signer {
    /// The bytes of the public key that verifies what this key signs.
    pub open spec fn public_key(&self) -> Seq<u8> {
        ed25519_public_key(self@)
    }
}

impl TextSign for Ed25519Signer {
    open spec fn signature(&self, data: Seq<u8>) -> Seq<u8> {
        ed25519_signature(self@, data)
    }

    /// Besides being the signature, what comes out has 64 bytes and is
    /// accepted under the public key of this key pair.
    fn sign(&self, data: &[u8]) -> (sig: Vec<u8>)
        ensures
            sig@.len() == SIGNATURE_LEN,
            ed25519_accepts(self.public_key(), data@, sig@),
    {
        let signature = ed25519_sign(&self.key, data);
        slice_to_vec(signature.as_slice())
    }
}

impl KeyLoader for Ed25519Signer {
    open spec fn material(&self) -> Seq<u8> {
        self@
    }

    open spec fn loaded(bytes: Seq<u8>) -> Result<Seq<u8>, TextError> {
        key_material(bytes)
    }

    fn load(bytes: &[u8]) -> (key: Result<Self, TextError>) {
        if bytes.len() < KEY_LEN {
            return Err(TextError::KeyTooShort);
        }
        Ok(Ed25519Signer { key: leading_bytes::<32>(bytes) })
    }
}

impl KeyGenerator for Ed25519Signer {
    /// Two blobs of 32 bytes, the secret key and then the public key derived
    /// from it, which is a point of the curve.
    open spec fn generated(keys: Seq<Vec<u8>>) -> bool {
        &&& keys.len() == 2
        &&& keys[0]@.len() == KEY_LEN
        &&& keys[1]@.len() == KEY_LEN
        &&& keys[1]@ == ed25519_public_key(keys[0]@)
        &&& ed25519_is_point(keys[1]@)
    }

    fn generate() -> (keys: Vec<Vec<u8>>) {
        let secret = ed25519_fresh_secret();
        key_pair(&secret)
    }
}

/// The public half of an Ed25519 key pair: 32 bytes that encode a point of
/// the curve.
pub struct Ed25519Verifier {
    key: [u8; 32],
}

impl View for Ed25519Verifier {
    type V = Seq<u8>;

    closed spec fn view(&self) -> Seq<u8> {
        self.key@
    }
}

impl Ed25519Verifier {
    /// Every verifier holds a point of the curve.
    #[verifier::type_invariant]
    spec fn is_point(&self) -> bool {
        ed25519_is_point(self.key@)
    }
}

impl TextVerify for Ed25519Verifier {
    open spec fn verdict(&self, data: Seq<u8>, sig: Seq<u8>) -> Result<bool, TextError> {
        if sig.len() != SIGNATURE_LEN {
            Err(TextError::SignatureLengthMismatch)
        } else {
            Ok(ed25519_accepts(self@, data, sig))
        }
    }

    fn verify(&self, data: &[u8], sig: &[u8]) -> (valid: Result<bool, TextError>) {
        if sig.len() != SIGNATURE_LEN {
            return Err(TextError::SignatureLengthMismatch);
        }
        let signature = leading_bytes::<64>(sig);
        assert(signature@ == sig@);
        proof {
            use_type_invariant(self);
        }
        match ed25519_verify(&self.key, data, &signature) {
            Ok(_) => Ok(true),
            Err(_) => Ok(false),
        }
    }
}

impl KeyLoader for Ed25519Verifier {
    open spec fn material(&self) -> Seq<u8> {
        self@
    }

    open spec fn loaded(bytes: Seq<u8>) -> Result<Seq<u8>, TextError> {
        match key_material(bytes) {
            Ok(point) => if ed25519_is_point(point) {
                Ok(point)
            } else {
                Err(TextError::InvalidPublicKey)
            },
            Err(e) => Err(e),
        }
    }

    fn load(bytes: &[u8]) -> (key: Result<Self, TextError>) {
        if bytes.len() < KEY_LEN {
            return Err(TextError::KeyTooShort);
        }
        let point = leading_bytes::<32>(bytes);
        match ed25519_check_point(&point) {
            Ok(_) => Ok(Ed25519Verifier { key: point }),
            Err(_) => Err(TextError::InvalidPublicKey),
        }
    }
}

/// A key for authenticated encryption with ChaCha20-Poly1305.
pub struct ChaCha20 {
    key: [u8; 32],
}

impl View for ChaCha20 {
    type V = Seq<u8>;

    closed spec fn view(&self) -> Seq<u8> {
        self.key@
    }
}

impl ChaCha20 {
    /// The envelope of `data` under `nonce`: the nonce, then the ciphertext
    /// and its tag, with nothing in between.
    pub open spec fn envelope(&self, nonce: Seq<u8>, data: Seq<u8>) -> Seq<u8> {
        nonce + chacha20poly1305_sealed(self@, nonce, data)
    }

    /// What opening `envelope` under the key bytes `key` gives. The first 12
    /// bytes are the nonce; the rest is opened under it. An envelope longer
    /// than that of the longest message is no envelope, and fails as one
    /// whose tag does not match.
    pub open spec fn opened(key: Seq<u8>, envelope: Seq<u8>) -> Result<Seq<u8>, TextError> {
        if envelope.len() > NONCE_LEN + MAX_MESSAGE_LEN + TAG_LEN {
            Err(TextError::AuthenticationFailed)
        } else {
            match chacha20poly1305_opened(
                key,
                envelope.subrange(0, NONCE_LEN as int),
                envelope.subrange(NONCE_LEN as int, envelope.len() as int),
            ) {
                Some(plain) => Ok(plain),
                None => Err(TextError::AuthenticationFailed),
            }
        }
    }

    /// Encrypts `data` under the given nonce. A nonce must never be used
    /// twice with one key: `encrypt` draws a fresh one for each call.
    pub fn encrypt_with_nonce(&self, nonce: &[u8; 12], data: &[u8]) -> (envelope: Result<Vec<u8>, TextError>)
        ensures
            envelope is Ok <==> Self::encryptable(data@.len()),
            envelope matches Ok(bytes) ==> {
                &&& bytes@ == self.envelope(nonce@, data@)
                &&& self.seals(data@, bytes@)
            },
            envelope matches Err(e) ==> e == TextError::EncryptionFailed,
    {
        if data.len() as u64 > MAX_MESSAGE_LEN || data.len() > usize::MAX - (NONCE_LEN + TAG_LEN) {
            return Err(TextError::EncryptionFailed);
        }
        match seal(&self.key, nonce, data) {
            Ok(sealed) => {
                let bytes = joined(nonce.as_slice(), sealed.as_slice());
                assert(bytes@.subrange(0, NONCE_LEN as int) =~= nonce@);
                assert(bytes@.subrange(NONCE_LEN as int, bytes@.len() as int) =~= sealed@);
                Ok(bytes)
            },
            Err(_) => Err(TextError::EncryptionFailed),
        }
    }
}

impl KeyGenerator for ChaCha20 {
    /// One blob of 32 printable characters: letters and digits, at least one
    /// of each kind, and no symbols.
    open spec fn generated(keys: Seq<Vec<u8>>) -> bool {
        keys.len() == 1 && is_password(keys[0]@, KEY_LEN as nat, true, true, true, false)
    }

    fn generate() -> (keys: Vec<Vec<u8>>) {
        let password = process_gen_pass(32, true, true, true, false);
        password_key(password.as_str())
    }
}

impl TextEncrypt for ChaCha20 {
    /// The cipher takes at most `MAX_MESSAGE_LEN` bytes, and the envelope,
    /// 28 bytes longer than the message, must fit in memory.
    open spec fn encryptable(len: nat) -> bool {
        len <= MAX_MESSAGE_LEN && len + NONCE_LEN + TAG_LEN <= usize::MAX
    }

    /// The envelope is 28 bytes longer than the message, what follows its
    /// first 12 bytes is the message sealed under those 12 bytes as the
    /// nonce, and decrypting it gives the message back.
    open spec fn seals(&self, data: Seq<u8>, envelope: Seq<u8>) -> bool {
        &&& envelope.len() == data.len() + NONCE_LEN + TAG_LEN
        &&& envelope == self.envelope(envelope.subrange(0, NONCE_LEN as int), data)
        &&& self.opens(envelope) == Ok::<Seq<u8>, TextError>(data)
    }

    fn encrypt(&self, data: &[u8]) -> (envelope: Result<Vec<u8>, TextError>) {
        let nonce = fresh_nonce();
        self.encrypt_with_nonce(&nonce, data)
    }
}

impl TextDecrypt for ChaCha20 {
    open spec fn framed(envelope: Seq<u8>) -> bool {
        envelope.len() >= NONCE_LEN
    }

    open spec fn opens(&self, envelope: Seq<u8>) -> Result<Seq<u8>, TextError> {
        Self::opened(self@, envelope)
    }

    fn decrypt(&self, envelope: &[u8]) -> (plain: Result<Vec<u8>, TextError>) {
        let nonce = leading_bytes::<12>(envelope);
        let sealed = vstd::slice::slice_subrange(envelope, NONCE_LEN, envelope.len());
        if sealed.len() as u64 > MAX_MESSAGE_LEN + TAG_LEN as u64 {
            return Err(TextError::AuthenticationFailed);
        }
        match open(&self.key, &nonce, sealed) {
            Ok(bytes) => Ok(bytes),
            Err(_) => Err(TextError::AuthenticationFailed),
        }
    }
}

impl KeyLoader for ChaCha20 {
    open spec fn material(&self) -> Seq<u8> {
        self@
    }

    open spec fn loaded(bytes: Seq<u8>) -> Result<Seq<u8>, TextError> {
        key_material(bytes)
    }

    fn load(bytes: &[u8]) -> (key: Result<Self, TextError>) {
        if bytes.len() < KEY_LEN {
            return Err(TextError::KeyTooShort);
        }
        Ok(ChaCha20 { key: leading_bytes::<32>(bytes) })
    }
}

/// The number of bytes of a signature of each format that signs: 32 for the
/// keyed hash, 64 for Ed25519.
pub open spec fn signature_len(format: TextSignFormat) -> nat {
    match format {
        TextSignFormat::Blake3 => DIGEST_LEN as nat,
        _ => SIGNATURE_LEN as nat,
    }
}

/// Whether the key file `key` loads as a key that verifies in `format`.
pub open spec fn verifying_key_loads(key: Seq<u8>, format: TextSignFormat) -> bool {
    match format {
        TextSignFormat::Blake3 => Blake3::loaded(key) is Ok,
        TextSignFormat::Ed25519 => Ed25519Verifier::loaded(key) is Ok,
        TextSignFormat::Chacha => false,
    }
}

/// The signature that `process_text_sign` makes before it is encoded, or the
/// reason why none is made.
pub open spec fn signed(input: Seq<u8>, key: Seq<u8>, format: TextSignFormat) -> Result<Seq<u8>, TextError> {
    match format {
        TextSignFormat::Blake3 => match key_material(key) {
            Ok(k) => Ok(blake3_keyed_hash(k, input)),
            Err(e) => Err(e),
        },
        TextSignFormat::Ed25519 => match key_material(key) {
            Ok(k) => Ok(ed25519_signature(k, input)),
            Err(e) => Err(e),
        },
        TextSignFormat::Chacha => Err(TextError::UnsupportedFormat),
    }
}

/// The verdict of `process_text_verify`. The key is loaded first, then the
/// signature text is decoded, then the signature is checked.
pub open spec fn verified(input: Seq<u8>, key: Seq<u8>, sig: Seq<char>, format: TextSignFormat) -> Result<bool, TextError> {
    match format {
        TextSignFormat::Blake3 => match key_material(key) {
            Ok(k) => match base64_data(true, encode_utf8(sig)) {
                Some(s) => Ok(s == blake3_keyed_hash(k, input)),
                None => Err(TextError::CodecError),
            },
            Err(e) => Err(e),
        },
        TextSignFormat::Ed25519 => match Ed25519Verifier::loaded(key) {
            Ok(k) => match base64_data(true, encode_utf8(sig)) {
                Some(s) => if s.len() != SIGNATURE_LEN {
                    Err(TextError::SignatureLengthMismatch)
                } else {
                    Ok(ed25519_accepts(k, input, s))
                },
                None => Err(TextError::CodecError),
            },
            Err(e) => Err(e),
        },
        TextSignFormat::Chacha => Err(TextError::UnsupportedFormat),
    }
}

/// What `process_text_decrypt` returns. The text is decoded first, then the
/// key is loaded, then the envelope is opened and read as UTF-8.
pub open spec fn decrypted(input: Seq<u8>, key: Seq<u8>) -> Result<Seq<char>, TextError> {
    match base64_data(true, input) {
        Some(envelope) => match key_material(key) {
            Ok(k) => if envelope.len() < NONCE_LEN {
                Err(TextError::AuthenticationFailed)
            } else {
                match ChaCha20::opened(k, envelope) {
                    Ok(plain) => if valid_utf8(plain) {
                        Ok(decode_utf8(plain))
                    } else {
                        Err(TextError::InvalidUtf8Output)
                    },
                    Err(e) => Err(e),
                }
            },
            Err(e) => Err(e),
        },
        None => Err(TextError::CodecError),
    }
}

/// Signs `input` under the key in `key`, the contents of the key file, and
/// returns the signature as URL-safe base64 without padding: 43 characters
/// for the 32 bytes of the keyed hash, 86 for the 64 bytes of Ed25519.
///
/// The text that comes out decodes to the signature again, and verifies: under
/// the same key file for the keyed hash, under every key file that loads as
/// the public key of this secret key for Ed25519.
pub fn process_text_sign(input: &[u8], key: &[u8], format: TextSignFormat) -> (text: Result<String, TextError>)
    ensures
        match text {
            Ok(t) => {
                &&& signed(input@, key@, format) matches Ok(sig)
                &&& sig.len() == signature_len(format)
                &&& t@ == base64_text(true, sig)
                &&& t@.len() == base64_len(sig.len(), false)
                &&& t@.len() == (if format == TextSignFormat::Blake3 {
                    43nat
                } else {
                    86nat
                })
                &&& base64_shaped(true, encode_utf8(t@))
                &&& base64_data(true, encode_utf8(t@)) == Some(sig)
                &&& format == TextSignFormat::Blake3 ==> verified(input@, key@, t@, format) == Ok::<
                    bool,
                    TextError,
                >(true)
                &&& format == TextSignFormat::Ed25519 ==> forall|public: Seq<u8>|
                    Ed25519Verifier::loaded(public) == Ok::<Seq<u8>, TextError>(
                        ed25519_public_key(key@.subrange(0, KEY_LEN as int)),
                    ) ==> #[trigger] verified(input@, public, t@, format) == Ok::<bool, TextError>(true)
            },
            Err(e) => signed(input@, key@, format) == Err::<Seq<u8>, TextError>(e),
        },
{
    let signed = match format {
        TextSignFormat::Blake3 => {
            match Blake3::load(key) {
                Ok(signer) => signer.sign(input),
                Err(e) => { return Err(e); },
            }
        },
        TextSignFormat::Ed25519 => {
            match Ed25519Signer::load(key) {
                Ok(signer) => signer.sign(input),
                Err(e) => { return Err(e); },
            }
        },
        TextSignFormat::Chacha => { return Err(TextError::UnsupportedFormat); },
    };
    Ok(url_safe_encode(signed.as_slice()))
}

/// Verifies the signature `sig`, URL-safe base64 without padding, against
/// `input` under the key in `key`, the contents of the key file.
///
/// `Ok(false)` says that verification ran and the signature is wrong; an
/// error says that it could not be attempted. Where the key loads, text that
/// has not the shape of URL-safe base64 without padding gives `CodecError`:
/// never a verdict, and never another error.
pub fn process_text_verify(input: &[u8], key: &[u8], sig: &str, format: TextSignFormat) -> (valid: Result<bool, TextError>)
    ensures
        valid == verified(input@, key@, sig@, format),
        valid is Ok ==> base64_shaped(true, encode_utf8(sig@)),
        verifying_key_loads(key@, format) && !base64_shaped(true, encode_utf8(sig@)) ==> valid
            == Err::<bool, TextError>(TextError::CodecError),
{
    match format {
        TextSignFormat::Blake3 => {
            let verifier = match Blake3::load(key) {
                Ok(verifier) => verifier,
                Err(e) => { return Err(e); },
            };
            match url_safe_decode(sig.as_bytes()) {
                Ok(bytes) => verifier.verify(input, bytes.as_slice()),
                Err(_) => Err(TextError::CodecError),
            }
        },
        TextSignFormat::Ed25519 => {
            let verifier = match Ed25519Verifier::load(key) {
                Ok(verifier) => verifier,
                Err(e) => { return Err(e); },
            };
            match url_safe_decode(sig.as_bytes()) {
                Ok(bytes) => verifier.verify(input, bytes.as_slice()),
                Err(_) => Err(TextError::CodecError),
            }
        },
        TextSignFormat::Chacha => Err(TextError::UnsupportedFormat),
    }
}

/// Fresh key material for `format`: one blob for each key file.
pub fn process_text_generate(format: TextSignFormat) -> (keys: Vec<Vec<u8>>)
    ensures
        match format {
            TextSignFormat::Blake3 => Blake3::generated(keys@),
            TextSignFormat::Ed25519 => Ed25519Signer::generated(keys@),
            TextSignFormat::Chacha => ChaCha20::generated(keys@),
        },
{
    match format {
        TextSignFormat::Blake3 => Blake3::generate(),
        TextSignFormat::Ed25519 => Ed25519Signer::generate(),
        TextSignFormat::Chacha => ChaCha20::generate(),
    }
}

/// Whether `process_text_encrypt` can encrypt `len` bytes on this machine:
/// the cipher takes them, and the base64 text of the envelope fits in memory.
pub open spec fn encryptable_as_text(len: nat) -> bool {
    ChaCha20::encryptable(len) && base64_len(len + NONCE_LEN as nat + TAG_LEN as nat, false) <= usize::MAX
}

/// What `process_text_decrypt` makes of a plaintext: its text, where it is
/// UTF-8.
pub open spec fn as_text(plain: Seq<u8>) -> Result<Seq<char>, TextError> {
    if valid_utf8(plain) {
        Ok(decode_utf8(plain))
    } else {
        Err(TextError::InvalidUtf8Output)
    }
}

/// Whether `text` is an encryption of `input` under the key file `key`: it is
/// URL-safe base64 without padding of an envelope, the envelope is 28 bytes
/// longer than the input, what follows its first 12 bytes is the input
/// sealed under those 12 bytes as the nonce, and `process_text_decrypt`
/// under the same key file gives the input back as text, where it is text.
pub open spec fn encrypted(input: Seq<u8>, key: Seq<u8>, text: Seq<char>) -> bool {
    &&& base64_shaped(true, encode_utf8(text))
    &&& base64_data(true, encode_utf8(text)) matches Some(envelope)
    &&& text == base64_text(true, envelope)
    &&& envelope.len() == input.len() + NONCE_LEN + TAG_LEN
    &&& envelope.subrange(NONCE_LEN as int, envelope.len() as int) == chacha20poly1305_sealed(
        key.subrange(0, KEY_LEN as int),
        envelope.subrange(0, NONCE_LEN as int),
        input,
    )
    &&& decrypted(encode_utf8(text), key) == as_text(input)
}

/// Encrypts `input` under the key in `key`, the contents of the key file, and
/// returns the envelope as URL-safe base64 without padding.
///
/// The text that comes out decodes to an envelope of `input`, and
/// `process_text_decrypt` under the same key file gives the input back as
/// text, where it is text.
pub fn process_text_encrypt(input: &[u8], key: &[u8]) -> (text: Result<String, TextError>)
    ensures
        text is Ok <==> key@.len() >= KEY_LEN && encryptable_as_text(input@.len()),
        text matches Err(e) ==> e == (if key@.len() < KEY_LEN {
            TextError::KeyTooShort
        } else {
            TextError::EncryptionFailed
        }),
        text matches Ok(t) ==> encrypted(input@, key@, t@),
{
    let chacha = match ChaCha20::load(key) {
        Ok(chacha) => chacha,
        Err(e) => { return Err(e); },
    };
    let envelope = match chacha.encrypt(input) {
        Ok(envelope) => envelope,
        Err(e) => { return Err(e); },
    };
    if !encodable(envelope.len(), false) {
        return Err(TextError::EncryptionFailed);
    }
    let text = url_safe_encode(envelope.as_slice());
    proof {
        let nonce = envelope@.subrange(0, NONCE_LEN as int);
        let sealed = chacha20poly1305_sealed(chacha@, nonce, input@);
        assert(envelope@ == nonce + sealed);
        assert(envelope@.subrange(NONCE_LEN as int, envelope@.len() as int) =~= sealed);
    }
    Ok(text)
}

/// Decrypts `input`, an envelope as URL-safe base64 without padding, under the
/// key in `key`, the contents of the key file, and returns the plaintext as
/// text.
///
/// An envelope too short to hold a nonce, or longer than that of the longest
/// message that the cipher takes, fails as one whose tag does not match:
/// with `AuthenticationFailed`. Input that has not the shape of
/// URL-safe base64 without padding fails with `CodecError`, whatever the key.
pub fn process_text_decrypt(input: &[u8], key: &[u8]) -> (text: Result<String, TextError>)
    ensures
        match text {
            Ok(t) => decrypted(input@, key@) == Ok::<Seq<char>, TextError>(t@),
            Err(e) => decrypted(input@, key@) == Err::<Seq<char>, TextError>(e),
        },
        !base64_shaped(true, input@) ==> text == Err::<String, TextError>(TextError::CodecError),
{
    let envelope = match url_safe_decode(input) {
        Ok(envelope) => envelope,
        Err(_) => { return Err(TextError::CodecError); },
    };
    let chacha = match ChaCha20::load(key) {
        Ok(chacha) => chacha,
        Err(e) => { return Err(e); },
    };
    if envelope.len() < NONCE_LEN {
        return Err(TextError::AuthenticationFailed);
    }
    let plain = match chacha.decrypt(envelope.as_slice()) {
        Ok(plain) => plain,
        Err(e) => { return Err(e); },
    };
    match text_from_utf8(plain) {
        Ok(text) => Ok(text),
        Err(_) => Err(TextError::InvalidUtf8Output),
    }
}

/// `bytes` with bit `bit` of the byte at `index` inverted.
pub open spec fn with_bit_flipped(bytes: Seq<u8>, index: int, bit: u8) -> Seq<u8> {
    bytes.update(index, bytes[index] ^ (1u8 << bit))
}

/// Key material of fewer than 32 bytes is refused with `KeyTooShort`; of 32
/// bytes or more, the first 32 are taken, whatever follows them.
pub proof fn key_material_is_the_first_32_bytes(bytes: Seq<u8>, extra: Seq<u8>)
    ensures
        bytes.len() < KEY_LEN ==> key_material(bytes) == Err::<Seq<u8>, TextError>(
            TextError::KeyTooShort,
        ),
        bytes.len() == KEY_LEN ==> key_material(bytes + extra) == Ok::<Seq<u8>, TextError>(bytes),
        bytes.len() >= KEY_LEN ==> key_material(bytes + extra) == key_material(bytes),
{
    if bytes.len() >= KEY_LEN {
        assert((bytes + extra).subrange(0, KEY_LEN as int) =~= bytes.subrange(0, KEY_LEN as int));
        if bytes.len() == KEY_LEN {
            assert(bytes.subrange(0, KEY_LEN as int) =~= bytes);
        }
    }
}

/// Every loader reads the first 32 bytes of a key file and nothing else: two
/// files that agree on those load alike. With `key_material_is_the_first_32_bytes`,
/// the symmetric loaders and the signer refuse exactly the files of fewer
/// than 32 bytes; the verifier also refuses 32 bytes that are no curve point.
pub proof fn loaders_ignore_extra_bytes(bytes: Seq<u8>, extra: Seq<u8>)
    requires
        bytes.len() >= KEY_LEN,
    ensures
        Blake3::loaded(bytes + extra) == Blake3::loaded(bytes),
        ChaCha20::loaded(bytes + extra) == ChaCha20::loaded(bytes),
        Ed25519Signer::loaded(bytes + extra) == Ed25519Signer::loaded(bytes),
        Ed25519Verifier::loaded(bytes + extra) == Ed25519Verifier::loaded(bytes),
        Blake3::loaded(bytes) is Ok,
        ChaCha20::loaded(bytes) is Ok,
        Ed25519Signer::loaded(bytes) is Ok,
{
    key_material_is_the_first_32_bytes(bytes, extra);
}

/// The keyed hash of a message verifies against that message under the same
/// key.
pub proof fn keyed_hash_verifies(key: Blake3, data: Seq<u8>)
    ensures
        key.verdict(data, key.signature(data)) == Ok::<bool, TextError>(true),
{
}

/// A keyed hash with any one bit inverted does not verify: the verdict is
/// `Ok(false)`, not an error.
pub proof fn keyed_hash_with_flipped_bit_is_rejected(key: Blake3, data: Seq<u8>, index: int, bit: u8)
    requires
        0 <= index < key.signature(data).len(),
        bit < 8,
    ensures
        key.verdict(data, with_bit_flipped(key.signature(data), index, bit)) == Ok::<bool, TextError>(
            false,
        ),
{
    let sig = key.signature(data);
    let byte = sig[index];
    assert(byte ^ (1u8 << bit) != byte) by (bit_vector)
        requires
            bit < 8,
    ;
    assert(with_bit_flipped(sig, index, bit)[index] != sig[index]);
}

/// Any signature other than the keyed hash itself gets the verdict
/// `Ok(false)`, whatever its length.
pub proof fn keyed_hash_rejects_every_other_signature(key: Blake3, data: Seq<u8>, sig: Seq<u8>)
    requires
        sig != key.signature(data),
    ensures
        key.verdict(data, sig) == Ok::<bool, TextError>(false),
{
}

/// What `Ed25519Signer::sign` promises of a signature, that it has 64 bytes
/// and is accepted under the signer's public key, is what a verifier holding
/// that public key needs to give the verdict `Ok(true)`.
pub proof fn ed25519_signature_verifies(
    signer: Ed25519Signer,
    verifier: Ed25519Verifier,
    data: Seq<u8>,
    sig: Seq<u8>,
)
    requires
        verifier.material() == signer.public_key(),
        sig.len() == SIGNATURE_LEN,
        ed25519_accepts(signer.public_key(), data, sig),
    ensures
        verifier.verdict(data, sig) == Ok::<bool, TextError>(true),
{
}

/// On a signature of 64 bytes a verifier gives a verdict, whoever made the
/// signature: a key that did not sign answers with a boolean, never with an
/// error. That the boolean is `false` for every foreign key is a property of
/// the signature scheme, and is not stated.
pub proof fn ed25519_gives_a_verdict_on_64_bytes(verifier: Ed25519Verifier, data: Seq<u8>, sig: Seq<u8>)
    requires
        sig.len() == SIGNATURE_LEN,
    ensures
        verifier.verdict(data, sig) is Ok,
{
}

/// An Ed25519 signature of the wrong length is an error, never a verdict.
pub proof fn ed25519_refuses_wrong_length(verifier: Ed25519Verifier, data: Seq<u8>, sig: Seq<u8>)
    requires
        sig.len() != SIGNATURE_LEN,
    ensures
        verifier.verdict(data, sig) == Err::<bool, TextError>(TextError::SignatureLengthMismatch),
{
}

/// What `TextEncrypt::encrypt` promises of an envelope is that decrypting it
/// under the same key gives the message back; so two envelopes of one
/// message, under whatever nonces, have one length and decrypt to the same
/// plaintext. That their nonces differ is chance, and is not stated.
pub proof fn envelopes_of_one_message_decrypt_alike(
    key: ChaCha20,
    data: Seq<u8>,
    first: Seq<u8>,
    second: Seq<u8>,
)
    requires
        key.seals(data, first),
        key.seals(data, second),
    ensures
        key.opens(first) == Ok::<Seq<u8>, TextError>(data),
        key.opens(second) == key.opens(first),
        first.len() == second.len(),
        ChaCha20::framed(first),
        ChaCha20::framed(second),
{
}

/// Decryption either fails with `AuthenticationFailed` or returns what the
/// cipher recovered under the envelope's own nonce: no other plaintext, and
/// no other error.
pub proof fn decryption_fails_closed(key: ChaCha20, envelope: Seq<u8>)
    ensures
        match key.opens(envelope) {
            Ok(plain) => chacha20poly1305_opened(
                key.material(),
                envelope.subrange(0, NONCE_LEN as int),
                envelope.subrange(NONCE_LEN as int, envelope.len() as int),
            ) == Some(plain),
            Err(e) => e == TextError::AuthenticationFailed,
        },
{
}

/// Signing and verifying refuse the cipher's format, whatever the input.
pub proof fn cipher_format_neither_signs_nor_verifies(input: Seq<u8>, key: Seq<u8>, sig: Seq<char>)
    ensures
        signed(input, key, TextSignFormat::Chacha) == Err::<Seq<u8>, TextError>(
            TextError::UnsupportedFormat,
        ),
        verified(input, key, sig, TextSignFormat::Chacha) == Err::<bool, TextError>(
            TextError::UnsupportedFormat,
        ),
{
}

} // verus!
