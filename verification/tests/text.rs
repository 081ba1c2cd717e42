use rcli::{
    process_text_decrypt, process_text_encrypt, process_text_generate, process_text_sign,
    process_text_verify, Blake3, ChaCha20, Ed25519Signer, Ed25519Verifier, KeyGenerator,
    KeyLoader, TextDecrypt, TextEncrypt, TextError, TextSign, TextSignFormat, TextVerify,
};

/// The key files that the tests load, held in memory.
fn fixture(name: &str) -> Vec<u8> {
    match name {
        "fixtures/blake3.key" => b"Hn2!Rq7@Lm4#Zx9$Vb6%Tc3^Wd8&Kf5*".to_vec(),
        "fixtures/chacha.key" => b"aB3dE6gH9jK2mN5pQ8rS1tU4vW7xY0zA".to_vec(),
        "fixtures/ed25519.sk" => vec![
            157, 97, 177, 157, 239, 253, 90, 96, 186, 132, 74, 244, 146, 236, 44, 196, 68, 73,
            197, 105, 123, 50, 105, 25, 112, 59, 172, 3, 28, 174, 127, 96,
        ],
        "fixtures/ed25519.pk" => vec![
            215, 90, 152, 1, 130, 177, 10, 183, 213, 75, 254, 211, 201, 100, 7, 58, 14, 225, 114,
            243, 218, 166, 35, 37, 175, 2, 26, 104, 247, 7, 81, 26,
        ],
        _ => panic!("no fixture named {}", name),
    }
}

/// The 32 bytes 0x00 to 0x1f.
fn counting_key() -> Vec<u8> {
    (0u8..32).collect()
}

/// The keyed hash of `hello` under the counting key.
fn hello_digest() -> Vec<u8> {
    vec![
        35, 39, 140, 24, 200, 201, 254, 15, 191, 173, 251, 148, 10, 245, 240, 141, 63, 209, 128,
        43, 249, 25, 221, 109, 119, 235, 210, 17, 161, 159, 190, 41,
    ]
}

/// The signature of the empty message under the key pair of the fixtures.
fn empty_signature() -> Vec<u8> {
    vec![
        229, 86, 67, 0, 195, 96, 172, 114, 144, 134, 226, 204, 128, 110, 130, 138, 132, 135, 127,
        30, 184, 229, 217, 116, 216, 115, 224, 101, 34, 73, 1, 85, 95, 184, 130, 21, 144, 163, 59,
        172, 198, 30, 57, 112, 28, 249, 180, 107, 210, 91, 245, 240, 89, 91, 190, 36, 101, 81, 65,
        67, 142, 122, 16, 11,
    ]
}

#[test]
fn test_blake3_sign_verify() {
    let signer = Blake3::load(&fixture("fixtures/blake3.key")).unwrap();

    let data = b"hello";
    let sig = signer.sign(&data[..]);
    assert!(signer.verify(&data[..], &sig).unwrap());
}

#[test]
fn test_ed25519_sign_verify() {
    let signer = Ed25519Signer::load(&fixture("fixtures/ed25519.sk")).unwrap();
    let verifier = Ed25519Verifier::load(&fixture("fixtures/ed25519.pk")).unwrap();

    let data = b"hello world!";
    let sig = signer.sign(&data[..]);
    assert!(verifier.verify(&data[..], &sig).unwrap());
}

#[test]
fn test_chacha20_encrypt_decrypt() {
    let chacha = ChaCha20::load(&fixture("fixtures/chacha.key")).unwrap();
    let data = b"hello world!";
    let cipher = chacha.encrypt(&data[..]).unwrap();
    let plain = chacha.decrypt(&cipher[..]).unwrap();
    assert_eq!(data.to_vec(), plain);
}

#[test]
fn blake3_digest_is_fixed_and_has_32_bytes() {
    let signer = Blake3::load(&counting_key()).unwrap();
    let first = signer.sign(b"hello");
    let second = signer.sign(b"hello");
    assert_eq!(first.len(), 32);
    assert_eq!(first, second);
    assert_eq!(first, hello_digest());
}

#[test]
fn blake3_rejects_every_single_bit_flip() {
    let signer = Blake3::load(&counting_key()).unwrap();
    let sig = signer.sign(b"hello");
    for index in 0..sig.len() {
        for bit in 0..8 {
            let mut flipped = sig.clone();
            flipped[index] ^= 1 << bit;
            assert_eq!(signer.verify(b"hello", &flipped), Ok(false));
        }
    }
}

#[test]
fn blake3_gives_false_for_a_signature_of_another_length() {
    let signer = Blake3::load(&counting_key()).unwrap();
    let sig = signer.sign(b"hello");
    assert_eq!(signer.verify(b"hello", &sig[..31]), Ok(false));
    assert_eq!(signer.verify(b"hello", &[]), Ok(false));
    let mut longer = sig.clone();
    longer.extend_from_slice(&sig);
    assert_eq!(signer.verify(b"hello", &longer), Ok(false));
    assert_eq!(signer.verify(b"hello", &empty_signature()), Ok(false));
}

#[test]
fn blake3_depends_on_key_and_message() {
    let signer = Blake3::load(&counting_key()).unwrap();
    let other = Blake3::load(&fixture("fixtures/blake3.key")).unwrap();
    assert_ne!(signer.sign(b"hello"), other.sign(b"hello"));
    assert_ne!(signer.sign(b"hello"), signer.sign(b"hello!"));
    assert_eq!(other.verify(b"hello", &signer.sign(b"hello")), Ok(false));
}

#[test]
fn key_of_31_bytes_is_too_short_for_every_loader() {
    let short = vec![7u8; 31];
    assert!(matches!(Blake3::load(&short), Err(TextError::KeyTooShort)));
    assert!(matches!(ChaCha20::load(&short), Err(TextError::KeyTooShort)));
    assert!(matches!(Ed25519Signer::load(&short), Err(TextError::KeyTooShort)));
    assert!(matches!(Ed25519Verifier::load(&short), Err(TextError::KeyTooShort)));
    assert!(matches!(Blake3::load(&[]), Err(TextError::KeyTooShort)));
}

#[test]
fn key_of_32_bytes_loads_and_further_bytes_are_ignored() {
    let exact = counting_key();
    let mut longer = counting_key();
    longer.extend_from_slice(b"\nanything after the key\n");

    let a = Blake3::load(&exact).unwrap();
    let b = Blake3::load(&longer).unwrap();
    assert_eq!(a.sign(b"hello"), b.sign(b"hello"));

    let mut sk = fixture("fixtures/ed25519.sk");
    let short_sig = Ed25519Signer::load(&sk).unwrap().sign(b"hello");
    sk.push(b'\n');
    assert_eq!(Ed25519Signer::load(&sk).unwrap().sign(b"hello"), short_sig);

    let mut pk = fixture("fixtures/ed25519.pk");
    pk.extend_from_slice(&[0xff; 8]);
    assert_eq!(Ed25519Verifier::load(&pk).unwrap().verify(b"hello", &short_sig), Ok(true));

    let c = ChaCha20::load(&exact).unwrap();
    let d = ChaCha20::load(&longer).unwrap();
    let nonce = [9u8; 12];
    assert_eq!(
        c.encrypt_with_nonce(&nonce, b"hello"),
        d.encrypt_with_nonce(&nonce, b"hello")
    );
}

#[test]
fn public_key_that_is_no_curve_point_is_refused() {
    let mut bytes = vec![0u8; 32];
    bytes[0] = 2;
    assert!(matches!(Ed25519Verifier::load(&bytes), Err(TextError::InvalidPublicKey)));
    // The same bytes are a fine secret key.
    assert!(Ed25519Signer::load(&bytes).is_ok());
}

#[test]
fn ed25519_signature_is_the_known_one_and_has_64_bytes() {
    let signer = Ed25519Signer::load(&fixture("fixtures/ed25519.sk")).unwrap();
    let sig = signer.sign(b"");
    assert_eq!(sig.len(), 64);
    assert_eq!(sig, empty_signature());
    assert_eq!(signer.sign(b""), sig);
}

#[test]
fn ed25519_wrong_signature_is_false_and_wrong_length_is_an_error() {
    let signer = Ed25519Signer::load(&fixture("fixtures/ed25519.sk")).unwrap();
    let verifier = Ed25519Verifier::load(&fixture("fixtures/ed25519.pk")).unwrap();
    let sig = signer.sign(b"hello world!");

    assert_eq!(verifier.verify(b"hello world?", &sig), Ok(false));
    let mut flipped = sig.clone();
    flipped[10] ^= 0x40;
    assert_eq!(verifier.verify(b"hello world!", &flipped), Ok(false));

    assert_eq!(
        verifier.verify(b"hello world!", &sig[..63]),
        Err(TextError::SignatureLengthMismatch)
    );
    assert_eq!(
        verifier.verify(b"hello world!", &hello_digest()),
        Err(TextError::SignatureLengthMismatch)
    );
    assert_eq!(verifier.verify(b"hello world!", &[]), Err(TextError::SignatureLengthMismatch));
}

#[test]
fn generated_key_pair_signs_and_verifies() {
    let keys = process_text_generate(TextSignFormat::Ed25519);
    assert_eq!(keys.len(), 2);
    assert_eq!(keys[0].len(), 32);
    assert_eq!(keys[1].len(), 32);

    let signer = Ed25519Signer::load(&keys[0]).unwrap();
    let verifier = Ed25519Verifier::load(&keys[1]).unwrap();
    let sig = signer.sign(b"hello world!");
    assert_eq!(verifier.verify(b"hello world!", &sig), Ok(true));

    let others = Ed25519Signer::generate();
    let stranger = Ed25519Verifier::load(&others[1]).unwrap();
    assert_eq!(stranger.verify(b"hello world!", &sig), Ok(false));
}

#[test]
fn key_pair_of_a_secret_is_the_secret_and_its_public_key() {
    let secret: [u8; 32] = fixture("fixtures/ed25519.sk").try_into().unwrap();
    let keys = rcli::key_pair(&secret);
    assert_eq!(keys, vec![fixture("fixtures/ed25519.sk"), fixture("fixtures/ed25519.pk")]);
}

#[test]
fn password_key_is_the_bytes_of_the_password() {
    assert_eq!(rcli::password_key("p@ss"), vec![b"p@ss".to_vec()]);
}

const UPPER: &[u8] = b"ABCDEFGHJKLMNPQRSTUVWXYZ";
const LOWER: &[u8] = b"abcdefghjkmnopqrstuvwxyz";
const NUMBER: &[u8] = b"123456789";
const SYMBOL: &[u8] = b"!@#$%^&*_";

#[test]
fn generated_symmetric_keys_are_32_printable_characters() {
    for _ in 0..20 {
        let keys = process_text_generate(TextSignFormat::Blake3);
        assert_eq!(keys.len(), 1);
        let key = &keys[0];
        assert_eq!(key.len(), 32);
        assert!(key.iter().all(|b| {
            UPPER.contains(b) || LOWER.contains(b) || NUMBER.contains(b) || SYMBOL.contains(b)
        }));
        assert!(key.iter().any(|b| UPPER.contains(b)));
        assert!(key.iter().any(|b| LOWER.contains(b)));
        assert!(key.iter().any(|b| NUMBER.contains(b)));
        assert!(key.iter().any(|b| SYMBOL.contains(b)));
        assert!(Blake3::load(key).is_ok());

        let keys = process_text_generate(TextSignFormat::Chacha);
        assert_eq!(keys.len(), 1);
        let key = &keys[0];
        assert_eq!(key.len(), 32);
        assert!(key
            .iter()
            .all(|b| UPPER.contains(b) || LOWER.contains(b) || NUMBER.contains(b)));
        assert!(key.iter().any(|b| UPPER.contains(b)));
        assert!(key.iter().any(|b| LOWER.contains(b)));
        assert!(key.iter().any(|b| NUMBER.contains(b)));
        assert!(ChaCha20::load(key).is_ok());
    }
    assert_eq!(Blake3::generate().len(), 1);
    assert_eq!(ChaCha20::generate().len(), 1);
}

#[test]
fn envelope_is_nonce_then_ciphertext_then_tag() {
    let chacha = ChaCha20::load(&fixture("fixtures/chacha.key")).unwrap();
    let nonce = [3u8; 12];
    let envelope = chacha.encrypt_with_nonce(&nonce, b"hello world!").unwrap();
    assert_eq!(envelope.len(), 12 + 12 + 16);
    assert_eq!(&envelope[..12], &nonce);
    assert_ne!(&envelope[12..24], b"hello world!");
    assert_eq!(chacha.encrypt_with_nonce(&nonce, b"hello world!").unwrap(), envelope);
    assert_eq!(chacha.decrypt(&envelope), Ok(b"hello world!".to_vec()));

    let empty = chacha.encrypt_with_nonce(&nonce, b"").unwrap();
    assert_eq!(empty.len(), 28);
    assert_eq!(chacha.decrypt(&empty), Ok(Vec::new()));

    let random = chacha.encrypt(b"hello world!").unwrap();
    assert_eq!(random.len(), 40);
}

#[test]
fn two_encryptions_differ_and_decrypt_alike() {
    let chacha = ChaCha20::load(&fixture("fixtures/chacha.key")).unwrap();
    let first = chacha.encrypt(b"hello world!").unwrap();
    let second = chacha.encrypt(b"hello world!").unwrap();
    assert_ne!(first, second);
    assert_ne!(first[..12], second[..12]);
    assert_eq!(chacha.decrypt(&first), chacha.decrypt(&second));
    assert_eq!(chacha.decrypt(&first), Ok(b"hello world!".to_vec()));
}

#[test]
fn tampered_envelope_fails_authentication() {
    let chacha = ChaCha20::load(&fixture("fixtures/chacha.key")).unwrap();
    let envelope = chacha.encrypt(b"hello world!").unwrap();
    for index in 0..envelope.len() {
        let mut tampered = envelope.clone();
        tampered[index] ^= 0x01;
        assert_eq!(chacha.decrypt(&tampered), Err(TextError::AuthenticationFailed));
    }
    // Cut short: the nonce alone, or less than a whole tag after it.
    assert_eq!(chacha.decrypt(&envelope[..12]), Err(TextError::AuthenticationFailed));
    assert_eq!(chacha.decrypt(&envelope[..27]), Err(TextError::AuthenticationFailed));
    assert_eq!(chacha.decrypt(&envelope[..39]), Err(TextError::AuthenticationFailed));
    // Another key.
    let other = ChaCha20::load(&counting_key()).unwrap();
    assert_eq!(other.decrypt(&envelope), Err(TextError::AuthenticationFailed));
}

#[test]
fn sign_gives_the_signature_as_url_safe_base64() {
    assert_eq!(
        process_text_sign(b"hello", &counting_key(), TextSignFormat::Blake3),
        Ok("IyeMGMjJ_g-_rfuUCvXwjT_RgCv5Gd1td-vSEaGfvik".to_string())
    );
    assert_eq!(
        process_text_sign(b"", &fixture("fixtures/ed25519.sk"), TextSignFormat::Ed25519),
        Ok("5VZDAMNgrHKQhuLMgG6CioSHfx645dl02HPgZSJJAVVfuIIVkKM7rMYeOXAc-bRr0lv18FlbviRlUUFDjnoQCw"
            .to_string())
    );
}

#[test]
fn sign_then_verify_is_true() {
    let key = fixture("fixtures/blake3.key");
    let sig = process_text_sign(b"hello", &key, TextSignFormat::Blake3).unwrap();
    assert_eq!(process_text_verify(b"hello", &key, &sig, TextSignFormat::Blake3), Ok(true));
    assert_eq!(process_text_verify(b"hullo", &key, &sig, TextSignFormat::Blake3), Ok(false));

    let sk = fixture("fixtures/ed25519.sk");
    let pk = fixture("fixtures/ed25519.pk");
    let sig = process_text_sign(b"hello world!", &sk, TextSignFormat::Ed25519).unwrap();
    assert_eq!(process_text_verify(b"hello world!", &pk, &sig, TextSignFormat::Ed25519), Ok(true));
    assert_eq!(process_text_verify(b"hello world", &pk, &sig, TextSignFormat::Ed25519), Ok(false));
}

#[test]
fn sign_fails_on_a_short_key_and_on_the_cipher_format() {
    assert_eq!(
        process_text_sign(b"hello", &[1u8; 31], TextSignFormat::Blake3),
        Err(TextError::KeyTooShort)
    );
    assert_eq!(
        process_text_sign(b"hello", &[1u8; 31], TextSignFormat::Ed25519),
        Err(TextError::KeyTooShort)
    );
    assert_eq!(
        process_text_sign(b"hello", &counting_key(), TextSignFormat::Chacha),
        Err(TextError::UnsupportedFormat)
    );
    assert_eq!(
        process_text_sign(b"hello", &[], TextSignFormat::Chacha),
        Err(TextError::UnsupportedFormat)
    );
}

#[test]
fn verify_tells_a_wrong_signature_from_one_it_cannot_check() {
    let key = counting_key();
    let good = "IyeMGMjJ_g-_rfuUCvXwjT_RgCv5Gd1td-vSEaGfvik";
    assert_eq!(process_text_verify(b"hello", &key, good, TextSignFormat::Blake3), Ok(true));
    // Not base64 in the URL-safe alphabet without padding.
    assert_eq!(
        process_text_verify(b"hello", &key, "IyeMGMjJ/g+/", TextSignFormat::Blake3),
        Err(TextError::CodecError)
    );
    assert_eq!(
        process_text_verify(b"hello", &key, "Zg==", TextSignFormat::Blake3),
        Err(TextError::CodecError)
    );
    // Base64, but of another signature.
    assert_eq!(process_text_verify(b"hello", &key, "Zm9v", TextSignFormat::Blake3), Ok(false));
    assert_eq!(process_text_verify(b"hello", &key, "", TextSignFormat::Blake3), Ok(false));
    // The key is looked at before the signature.
    assert_eq!(
        process_text_verify(b"hello", &key[..31], "Zg==", TextSignFormat::Blake3),
        Err(TextError::KeyTooShort)
    );
    assert_eq!(
        process_text_verify(b"hello", &key, good, TextSignFormat::Chacha),
        Err(TextError::UnsupportedFormat)
    );
}

#[test]
fn verify_with_the_other_algorithm_fails_without_panic() {
    let pk = fixture("fixtures/ed25519.pk");
    let sk = fixture("fixtures/ed25519.sk");
    let hashed = process_text_sign(b"hello", &counting_key(), TextSignFormat::Blake3).unwrap();
    let signed = process_text_sign(b"hello", &sk, TextSignFormat::Ed25519).unwrap();
    assert_eq!(
        process_text_verify(b"hello", &pk, &hashed, TextSignFormat::Ed25519),
        Err(TextError::SignatureLengthMismatch)
    );
    assert_eq!(
        process_text_verify(b"hello", &counting_key(), &signed, TextSignFormat::Blake3),
        Ok(false)
    );
    let mut no_point = vec![0u8; 32];
    no_point[0] = 2;
    assert_eq!(
        process_text_verify(b"hello", &no_point, &signed, TextSignFormat::Ed25519),
        Err(TextError::InvalidPublicKey)
    );
    assert_eq!(
        process_text_verify(b"hello", &pk, "not base64!", TextSignFormat::Ed25519),
        Err(TextError::CodecError)
    );
}

#[test]
fn encrypt_then_decrypt_gives_the_text_back() {
    let key = fixture("fixtures/chacha.key");
    let first = process_text_encrypt("hello world! 你好".as_bytes(), &key).unwrap();
    let second = process_text_encrypt("hello world! 你好".as_bytes(), &key).unwrap();
    assert_ne!(first, second);
    assert!(first.bytes().all(|b| b.is_ascii_alphanumeric() || b == b'-' || b == b'_'));
    // 12 + 19 + 16 bytes make 63 characters.
    assert_eq!(first.len(), 63);
    assert_eq!(process_text_decrypt(first.as_bytes(), &key), Ok("hello world! 你好".to_string()));
    assert_eq!(process_text_decrypt(second.as_bytes(), &key), Ok("hello world! 你好".to_string()));
}

#[test]
fn decrypt_names_each_failure() {
    let key = fixture("fixtures/chacha.key");
    let text = process_text_encrypt(b"hello world!", &key).unwrap();

    assert_eq!(process_text_decrypt(b"***", &key), Err(TextError::CodecError));
    // A line feed after the text is no part of the alphabet.
    let mut with_newline = text.clone().into_bytes();
    with_newline.push(b'\n');
    assert_eq!(process_text_decrypt(&with_newline, &key), Err(TextError::CodecError));
    // The text is decoded before the key is loaded.
    assert_eq!(process_text_decrypt(b"***", &key[..31]), Err(TextError::CodecError));
    assert_eq!(process_text_decrypt(text.as_bytes(), &key[..31]), Err(TextError::KeyTooShort));
    // Too short to hold a nonce, or a tag.
    assert_eq!(process_text_decrypt(b"", &key), Err(TextError::AuthenticationFailed));
    assert_eq!(process_text_decrypt(b"Zm9v", &key), Err(TextError::AuthenticationFailed));
    assert_eq!(
        process_text_decrypt(&text.as_bytes()[..16], &key),
        Err(TextError::AuthenticationFailed)
    );
    // Another key.
    assert_eq!(
        process_text_decrypt(text.as_bytes(), &counting_key()),
        Err(TextError::AuthenticationFailed)
    );
    // Bytes that are no text.
    let binary = process_text_encrypt(&[0xff, 0xfe, 0x00], &key).unwrap();
    assert_eq!(process_text_decrypt(binary.as_bytes(), &key), Err(TextError::InvalidUtf8Output));
}

#[test]
fn encrypt_fails_on_a_short_key() {
    assert_eq!(process_text_encrypt(b"hello", &[0u8; 31]), Err(TextError::KeyTooShort));
}

#[test]
fn signature_text_has_43_or_86_characters() {
    let hashed = process_text_sign(b"hello", &counting_key(), TextSignFormat::Blake3).unwrap();
    assert_eq!(hashed.len(), 43);
    let signed =
        process_text_sign(b"hello", &fixture("fixtures/ed25519.sk"), TextSignFormat::Ed25519)
            .unwrap();
    assert_eq!(signed.len(), 86);
    assert_eq!(process_text_sign(b"", &counting_key(), TextSignFormat::Blake3).unwrap().len(), 43);
}

#[test]
fn malformed_signature_text_is_a_codec_error_for_both_formats() {
    let pk = fixture("fixtures/ed25519.pk");
    let key = counting_key();
    for sig in ["aGVsbG8=", "aGVs+G8", "aGVs/G8", "aGVs bG8", "aGVsb\n", " aGVsbG8", "aGVsb", "a", "="] {
        assert_eq!(
            process_text_verify(b"hello", &key, sig, TextSignFormat::Blake3),
            Err(TextError::CodecError)
        );
        assert_eq!(
            process_text_verify(b"hello", &pk, sig, TextSignFormat::Ed25519),
            Err(TextError::CodecError)
        );
    }
    // Well-formed text of another length is decoded, and then judged.
    assert_eq!(
        process_text_verify(b"hello", &pk, "aGVsbG8", TextSignFormat::Ed25519),
        Err(TextError::SignatureLengthMismatch)
    );
    assert_eq!(process_text_verify(b"hello", &key, "aGVsbG8", TextSignFormat::Blake3), Ok(false));
}
