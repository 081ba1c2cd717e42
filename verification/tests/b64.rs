use rcli::{process_base64_decode, process_base64_encode, Base64Format, TextError};

/// The files that the tests read, held in memory.
fn fixture(name: &str) -> &'static str {
    match name {
        "fixtures/base64/b64_original.txt" => "# Base64 sample\nhello world?>>>~~ 你好\n",
        "fixtures/base64/b64_standard.txt" => {
            "IyBCYXNlNjQgc2FtcGxlCmhlbGxvIHdvcmxkPz4+Pn5+IOS9oOWlvQo=\n"
        }
        "fixtures/base64/b64_urlsafe.txt" => {
            "IyBCYXNlNjQgc2FtcGxlCmhlbGxvIHdvcmxkPz4-Pn5-IOS9oOWlvQo\n"
        }
        _ => panic!("no fixture named {}", name),
    }
}

#[test]
fn test_process_base64_encode_standard() {
    let input = "fixtures/base64/b64_original.txt";
    let format = Base64Format::Standard;
    assert!(process_base64_encode(fixture(input).as_bytes(), format).is_ok());
}

#[test]
fn test_process_base64_encode_urlsafe() {
    let input = "fixtures/base64/b64_original.txt";
    let format = Base64Format::UrlSafe;
    assert!(process_base64_encode(fixture(input).as_bytes(), format).is_ok());
}

#[test]
fn test_process_base64_decode_standard() {
    let input = "fixtures/base64/b64_standard.txt";
    let format = Base64Format::Standard;
    assert!(process_base64_decode(fixture(input), format).is_ok());
}

#[test]
fn test_process_base64_decode_urlsafe() {
    let input = "fixtures/base64/b64_urlsafe.txt";
    let format = Base64Format::UrlSafe;
    assert!(process_base64_decode(fixture(input), format).is_ok());
}

#[test]
fn encode_gives_the_exact_text_of_each_format() {
    let plain = fixture("fixtures/base64/b64_original.txt").as_bytes();
    assert_eq!(
        process_base64_encode(plain, Base64Format::Standard).unwrap(),
        fixture("fixtures/base64/b64_standard.txt").trim_end()
    );
    assert_eq!(
        process_base64_encode(plain, Base64Format::UrlSafe).unwrap(),
        fixture("fixtures/base64/b64_urlsafe.txt").trim_end()
    );
    assert_eq!(process_base64_encode(b"", Base64Format::Standard).unwrap(), "");
    assert_eq!(process_base64_encode(b"f", Base64Format::Standard).unwrap(), "Zg==");
    assert_eq!(process_base64_encode(b"f", Base64Format::UrlSafe).unwrap(), "Zg");
    assert_eq!(process_base64_encode(b"fo", Base64Format::Standard).unwrap(), "Zm8=");
    assert_eq!(process_base64_encode(b"fo", Base64Format::UrlSafe).unwrap(), "Zm8");
    assert_eq!(process_base64_encode(b"foo", Base64Format::UrlSafe).unwrap(), "Zm9v");
    assert_eq!(
        process_base64_encode(&[0xfb, 0xff, 0xbf], Base64Format::Standard).unwrap(),
        "+/+/"
    );
    assert_eq!(
        process_base64_encode(&[0xfb, 0xff, 0xbf], Base64Format::UrlSafe).unwrap(),
        "-_-_"
    );
}

#[test]
fn decode_gives_the_bytes_back() {
    let plain = fixture("fixtures/base64/b64_original.txt").as_bytes().to_vec();
    assert_eq!(
        process_base64_decode(fixture("fixtures/base64/b64_standard.txt"), Base64Format::Standard),
        Ok(plain.clone())
    );
    assert_eq!(
        process_base64_decode(fixture("fixtures/base64/b64_urlsafe.txt"), Base64Format::UrlSafe),
        Ok(plain)
    );
}

#[test]
fn decode_ignores_white_space_around_the_text_only() {
    assert_eq!(
        process_base64_decode(" \t\r\nZm9v\u{3000}\u{a0}\n", Base64Format::Standard),
        Ok(b"foo".to_vec())
    );
    assert_eq!(
        process_base64_decode("Zm 9v", Base64Format::Standard),
        Err(TextError::CodecError)
    );
    assert_eq!(process_base64_decode("  ", Base64Format::UrlSafe), Ok(Vec::new()));
}

#[test]
fn decode_refuses_the_other_alphabet_and_wrong_padding() {
    assert_eq!(
        process_base64_decode("-_-_", Base64Format::Standard),
        Err(TextError::CodecError)
    );
    assert_eq!(
        process_base64_decode("+/+/", Base64Format::UrlSafe),
        Err(TextError::CodecError)
    );
    assert_eq!(
        process_base64_decode("Zg==", Base64Format::UrlSafe),
        Err(TextError::CodecError)
    );
    assert_eq!(
        process_base64_decode("Zg", Base64Format::Standard),
        Err(TextError::CodecError)
    );
    assert_eq!(
        process_base64_decode("Z", Base64Format::UrlSafe),
        Err(TextError::CodecError)
    );
}
