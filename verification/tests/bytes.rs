use rcli::ascii::same_text;
use rcli::bytes::{joined, leading_bytes, same_bytes};
use rcli::encodable;

#[test]
fn leading_bytes_are_the_first_ones() {
    let bytes: Vec<u8> = (0u8..40).collect();
    let head: [u8; 32] = leading_bytes(&bytes);
    assert_eq!(&head[..], &bytes[..32]);
    let head: [u8; 12] = leading_bytes(&bytes);
    assert_eq!(head, [0, 1, 2, 3, 4, 5, 6, 7, 8, 9, 10, 11]);
    let all: [u8; 40] = leading_bytes(&bytes);
    assert_eq!(&all[..], &bytes[..]);
    let none: [u8; 0] = leading_bytes(&bytes);
    assert_eq!(none.len(), 0);
}

#[test]
fn same_bytes_is_equality() {
    assert!(same_bytes(b"", b""));
    assert!(same_bytes(b"abc", b"abc"));
    assert!(!same_bytes(b"abc", b"abd"));
    assert!(!same_bytes(b"abc", b"ab"));
    assert!(!same_bytes(b"ab", b"abc"));
    assert!(!same_bytes(b"xbc", b"abc"));
}

#[test]
fn joined_is_one_after_the_other() {
    assert_eq!(joined(b"abc", b"de"), b"abcde".to_vec());
    assert_eq!(joined(b"", b"de"), b"de".to_vec());
    assert_eq!(joined(b"abc", b""), b"abc".to_vec());
    assert_eq!(joined(b"", b""), Vec::<u8>::new());
}

#[test]
fn same_text_is_equality_with_an_ascii_word() {
    assert!(same_text("blake3", "blake3"));
    assert!(same_text("", ""));
    assert!(same_text("-", "-"));
    assert!(!same_text("blake", "blake3"));
    assert!(!same_text("blake33", "blake3"));
    assert!(!same_text("Blake3", "blake3"));
    assert!(!same_text("blaké", "blake3"));
    assert!(!same_text("é", "-"));
}

#[test]
fn text_of_a_length_is_encodable_while_it_fits() {
    assert!(encodable(0, true));
    assert!(encodable(1, false));
    assert!(encodable(1 << 20, true));
    let most = usize::MAX / 4 * 3;
    assert!(encodable(most, true));
    assert!(encodable(most, false));
    assert!(!encodable(most + 1, true));
    assert!(encodable(most + 1, false));
    assert!(encodable(most + 2, false));
    assert!(!encodable(most + 3, false));
    assert!(!encodable(usize::MAX, true));
    assert!(!encodable(usize::MAX, false));
}
