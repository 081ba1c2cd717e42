use rcli::{password_bytes, process_gen_pass, GenPassOpts};

const UPPER: &str = "ABCDEFGHJKLMNPQRSTUVWXYZ";
const LOWER: &str = "abcdefghjkmnopqrstuvwxyz";
const NUMBER: &str = "123456789";
const SYMBOL: &str = "!@#$%^&*_";

fn from(class: &str, password: &str) -> usize {
    password.chars().filter(|c| class.contains(*c)).count()
}

#[test]
fn password_has_the_length_and_one_of_each_class() {
    for _ in 0..50 {
        let password = process_gen_pass(16, true, true, true, true);
        assert_eq!(password.len(), 16);
        assert!(from(UPPER, &password) >= 1);
        assert!(from(LOWER, &password) >= 1);
        assert!(from(NUMBER, &password) >= 1);
        assert!(from(SYMBOL, &password) >= 1);
        assert_eq!(
            from(UPPER, &password)
                + from(LOWER, &password)
                + from(NUMBER, &password)
                + from(SYMBOL, &password),
            16
        );
    }
}

#[test]
fn password_draws_from_the_enabled_classes_only() {
    for _ in 0..50 {
        let password = process_gen_pass(12, false, true, false, true);
        assert_eq!(password.len(), 12);
        assert!(from(LOWER, &password) >= 1);
        assert!(from(SYMBOL, &password) >= 1);
        assert_eq!(from(LOWER, &password) + from(SYMBOL, &password), 12);
        assert!(!password.contains('i') && !password.contains('l'));

        let digits = process_gen_pass(255, false, false, true, false);
        assert_eq!(digits.len(), 255);
        assert_eq!(from(NUMBER, &digits), 255);
        assert!(!digits.contains('0'));
    }
}

#[test]
fn password_as_short_as_the_classes_allow() {
    for _ in 0..50 {
        let password = process_gen_pass(4, true, true, true, true);
        assert_eq!(password.len(), 4);
        assert_eq!(from(UPPER, &password), 1);
        assert_eq!(from(LOWER, &password), 1);
        assert_eq!(from(NUMBER, &password), 1);
        assert_eq!(from(SYMBOL, &password), 1);
    }
    assert_eq!(process_gen_pass(0, false, false, false, false), "");
    assert_eq!(process_gen_pass(1, true, false, false, false).len(), 1);
}

#[test]
fn password_is_not_always_in_the_order_of_the_classes() {
    // With the four characters of the classes shuffled, the upper-case letter
    // comes first in a quarter of the cases only.
    let mut first_is_upper = 0;
    for _ in 0..200 {
        let password = process_gen_pass(4, true, true, true, true);
        if UPPER.contains(password.chars().next().unwrap()) {
            first_is_upper += 1;
        }
    }
    assert!(first_is_upper < 200);
    assert!(first_is_upper > 0);
}

#[test]
fn password_bytes_are_the_characters_of_a_password() {
    let bytes = password_bytes(20, true, false, true, false);
    assert_eq!(bytes.len(), 20);
    let text = String::from_utf8(bytes).unwrap();
    assert!(from(UPPER, &text) >= 1);
    assert!(from(NUMBER, &text) >= 1);
    assert_eq!(from(UPPER, &text) + from(NUMBER, &text), 20);
}

#[test]
fn options_are_consistent_when_the_length_has_room_for_the_classes() {
    let opts = |length, upper, lower, number, symbol| GenPassOpts { length, upper, lower, number, symbol };
    assert!(opts(16, true, true, true, true).is_consistent());
    assert!(opts(4, true, true, true, true).is_consistent());
    assert!(!opts(3, true, true, true, true).is_consistent());
    assert!(opts(1, false, false, true, false).is_consistent());
    assert!(!opts(0, false, false, true, false).is_consistent());
    assert!(opts(0, false, false, false, false).is_consistent());
    assert!(!opts(1, false, false, false, false).is_consistent());
    assert!(!opts(255, false, false, false, false).is_consistent());
}
