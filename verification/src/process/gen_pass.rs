//! Random passwords over chosen classes of characters.

use vstd::prelude::*;
use vstd::pervasive::unreached;
use vstd::utf8::{
    encode_utf8, encode_utf8_decode_utf8, encode_utf8_valid_utf8, is_ascii_chars,
    is_ascii_chars_encode_utf8,
};
use rand::rngs::ThreadRng;
use crate::backend::codec::text_from_utf8;
use crate::backend::random::{pick_byte, shuffle_bytes, thread_rng};

verus! {

/// The upper-case letters `ABCDEFGHJKLMNPQRSTUVWXYZ`: all but `I` and `O`.
pub const UPPER: [u8; 24] = [65, 66, 67, 68, 69, 70, 71, 72, 74, 75, 76, 77, 78, 80, 81, 82, 83, 84, 85, 86, 87, 88, 89, 90];

/// The lower-case letters `abcdefghjkmnopqrstuvwxyz`: all but `i` and `l`.
pub const LOWER: [u8; 24] = [97, 98, 99, 100, 101, 102, 103, 104, 106, 107, 109, 110, 111, 112, 113, 114, 115, 116, 117, 118, 119, 120, 121, 122];

/// The digits `123456789`.
pub const NUMBER: [u8; 9] = [49, 50, 51, 52, 53, 54, 55, 56, 57];

/// The symbols `!@#$%^&*_`.
pub const SYMBOL: [u8; 9] = [33, 64, 35, 36, 37, 94, 38, 42, 95];

/// The members of a class where it is enabled, else nothing.
pub open spec fn class(enabled: bool, members: Seq<u8>) -> Seq<u8> {
    if enabled {
        members
    } else {
        Seq::empty()
    }
}

/// Every character that a password over the enabled classes may hold.
pub open spec fn pool(upper: bool, lower: bool, number: bool, symbol: bool) -> Seq<u8> {
    class(upper, UPPER@) + class(lower, LOWER@) + class(number, NUMBER@) + class(symbol, SYMBOL@)
}

/// How many classes are enabled.
pub open spec fn classes(upper: bool, lower: bool, number: bool, symbol: bool) -> nat {
    (if upper { 1nat } else { 0nat }) + (if lower { 1nat } else { 0nat })
        + (if number { 1nat } else { 0nat }) + (if symbol { 1nat } else { 0nat })
}

/// Whether at least one byte of `bytes` is a member of the class.
pub open spec fn draws_from(bytes: Seq<u8>, members: Seq<u8>) -> bool {
    exists|i: int| 0 <= i < bytes.len() && members.contains(#[trigger] bytes[i])
}

/// Whether `bytes` is a password of `length` characters over the enabled
/// classes: every byte is from the pool, and each enabled class is drawn
/// from at least once.
pub open spec fn is_password(
    bytes: Seq<u8>,
    length: nat,
    upper: bool,
    lower: bool,
    number: bool,
    symbol: bool,
) -> bool {
    &&& bytes.len() == length
    &&& forall|i: int| 0 <= i < bytes.len() ==> pool(upper, lower, number, symbol).contains(#[trigger] bytes[i])
    &&& upper ==> draws_from(bytes, UPPER@)
    &&& lower ==> draws_from(bytes, LOWER@)
    &&& number ==> draws_from(bytes, NUMBER@)
    &&& symbol ==> draws_from(bytes, SYMBOL@)
}

/// One byte of `members`, chosen at random.
fn draw(members: &[u8], rng: &mut ThreadRng) -> (byte: u8)
    requires
        members@.len() > 0,
    ensures
        members@.contains(byte),
{
    match pick_byte(members, rng) {
        Some(byte) => byte,
        None => unreached(),
    }
}

/// Appends `members` to `chars`.
fn extend(chars: &mut Vec<u8>, members: &[u8])
    ensures
        final(chars)@ == old(chars)@ + members@,
{
    let mut i: usize = 0;
    while i < members.len()
        invariant
            i <= members@.len(),
            chars@ == old(chars)@ + members@.subrange(0, i as int),
        decreases members@.len() - i,
    {
        chars.push(members[i]);
        i += 1;
        assert(chars@ =~= old(chars)@ + members@.subrange(0, i as int));
    }
    assert(chars@ =~= old(chars)@ + members@);
}

/// A class that is drawn from stays drawn from when a byte is appended.
proof fn lemma_draws_from_push(bytes: Seq<u8>, byte: u8, members: Seq<u8>)
    ensures
        draws_from(bytes, members) ==> draws_from(bytes.push(byte), members),
        members.contains(byte) ==> draws_from(bytes.push(byte), members),
{
    if draws_from(bytes, members) {
        let i = choose|i: int| 0 <= i < bytes.len() && members.contains(#[trigger] bytes[i]);
        assert(bytes.push(byte)[i] == bytes[i]);
    }
    if members.contains(byte) {
        assert(bytes.push(byte)[bytes.len() as int] == byte);
    }
}

/// What either part holds, the whole holds.
proof fn lemma_part_in_whole(head: Seq<u8>, tail: Seq<u8>, byte: u8)
    requires
        head.contains(byte) || tail.contains(byte),
    ensures
        (head + tail).contains(byte),
{
    if head.contains(byte) {
        let i = choose|i: int| 0 <= i < head.len() && head[i] == byte;
        assert((head + tail)[i] == byte);
    } else {
        let i = choose|i: int| 0 <= i < tail.len() && tail[i] == byte;
        assert((head + tail)[head.len() + i] == byte);
    }
}

/// A member of an enabled class is in the pool.
proof fn lemma_member_in_pool(byte: u8, upper: bool, lower: bool, number: bool, symbol: bool)
    requires
        (upper && UPPER@.contains(byte)) || (lower && LOWER@.contains(byte)) || (number
            && NUMBER@.contains(byte)) || (symbol && SYMBOL@.contains(byte)),
    ensures
        pool(upper, lower, number, symbol).contains(byte),
{
    let a = class(upper, UPPER@);
    let b = class(lower, LOWER@);
    let c = class(number, NUMBER@);
    let d = class(symbol, SYMBOL@);
    if a.contains(byte) || b.contains(byte) {
        lemma_part_in_whole(a, b, byte);
    }
    if (a + b).contains(byte) || c.contains(byte) {
        lemma_part_in_whole(a + b, c, byte);
    }
    lemma_part_in_whole(a + b + c, d, byte);
}

/// Whether every byte of `bytes` is in the pool.
spec fn within_pool(bytes: Seq<u8>, upper: bool, lower: bool, number: bool, symbol: bool) -> bool {
    forall|i: int| 0 <= i < bytes.len() ==> pool(upper, lower, number, symbol).contains(#[trigger] bytes[i])
}

/// Appending a byte of the pool keeps every byte within the pool, keeps
/// every class drawn from, and draws from the classes the byte is a member of.
proof fn lemma_push_of_pool(bytes: Seq<u8>, byte: u8, upper: bool, lower: bool, number: bool, symbol: bool)
    requires
        within_pool(bytes, upper, lower, number, symbol),
        pool(upper, lower, number, symbol).contains(byte),
    ensures
        within_pool(bytes.push(byte), upper, lower, number, symbol),
        draws_from(bytes, UPPER@) || UPPER@.contains(byte) ==> draws_from(bytes.push(byte), UPPER@),
        draws_from(bytes, LOWER@) || LOWER@.contains(byte) ==> draws_from(bytes.push(byte), LOWER@),
        draws_from(bytes, NUMBER@) || NUMBER@.contains(byte) ==> draws_from(
            bytes.push(byte),
            NUMBER@,
        ),
        draws_from(bytes, SYMBOL@) || SYMBOL@.contains(byte) ==> draws_from(
            bytes.push(byte),
            SYMBOL@,
        ),
{
    lemma_draws_from_push(bytes, byte, UPPER@);
    lemma_draws_from_push(bytes, byte, LOWER@);
    lemma_draws_from_push(bytes, byte, NUMBER@);
    lemma_draws_from_push(bytes, byte, SYMBOL@);
}

/// A permutation of a password is a password.
proof fn lemma_permuted_password(
    before: Seq<u8>,
    after: Seq<u8>,
    length: nat,
    upper: bool,
    lower: bool,
    number: bool,
    symbol: bool,
)
    requires
        is_password(before, length, upper, lower, number, symbol),
        after.len() == before.len(),
        after.to_multiset() == before.to_multiset(),
    ensures
        is_password(after, length, upper, lower, number, symbol),
{
    before.to_multiset_ensures();
    after.to_multiset_ensures();
    assert forall|i: int| 0 <= i < after.len() implies pool(upper, lower, number, symbol).contains(
        #[trigger] after[i],
    ) by {
        assert(after.contains(after[i]));
        assert(after.to_multiset().count(after[i]) > 0);
        assert(before.contains(after[i]));
    }
    lemma_permuted_draws(before, after, UPPER@);
    lemma_permuted_draws(before, after, LOWER@);
    lemma_permuted_draws(before, after, NUMBER@);
    lemma_permuted_draws(before, after, SYMBOL@);
}

/// A permutation of a byte string draws from every class that the byte string draws from.
proof fn lemma_permuted_draws(before: Seq<u8>, after: Seq<u8>, members: Seq<u8>)
    requires
        after.to_multiset() == before.to_multiset(),
    ensures
        draws_from(before, members) ==> draws_from(after, members),
{
    before.to_multiset_ensures();
    after.to_multiset_ensures();
    if draws_from(before, members) {
        let i = choose|i: int| 0 <= i < before.len() && members.contains(#[trigger] before[i]);
        assert(before.contains(before[i]));
        assert(before.to_multiset().count(before[i]) > 0);
        assert(after.contains(before[i]));
        let j = choose|j: int| 0 <= j < after.len() && after[j] == before[i];
        assert(members.contains(after[j]));
    }
}

/// The bytes of a password: one random member of each enabled class, the
/// rest from the whole pool, all in random order.
pub fn password_bytes(length: u8, upper: bool, lower: bool, number: bool, symbol: bool) -> (bytes: Vec<u8>)
    requires
        classes(upper, lower, number, symbol) <= length,
        classes(upper, lower, number, symbol) > 0 || length == 0,
    ensures
        is_password(bytes@, length as nat, upper, lower, number, symbol),
{
    let mut rng = thread_rng();
    let mut pass: Vec<u8> = Vec::new();
    let mut chars: Vec<u8> = Vec::new();
    if upper {
        extend(&mut chars, UPPER.as_slice());
        let byte = draw(UPPER.as_slice(), &mut rng);
        proof {
            lemma_member_in_pool(byte, upper, lower, number, symbol);
            lemma_push_of_pool(pass@, byte, upper, lower, number, symbol);
        }
        pass.push(byte);
    }
    if lower {
        extend(&mut chars, LOWER.as_slice());
        let byte = draw(LOWER.as_slice(), &mut rng);
        proof {
            lemma_member_in_pool(byte, upper, lower, number, symbol);
            lemma_push_of_pool(pass@, byte, upper, lower, number, symbol);
        }
        pass.push(byte);
    }
    if number {
        extend(&mut chars, NUMBER.as_slice());
        let byte = draw(NUMBER.as_slice(), &mut rng);
        proof {
            lemma_member_in_pool(byte, upper, lower, number, symbol);
            lemma_push_of_pool(pass@, byte, upper, lower, number, symbol);
        }
        pass.push(byte);
    }
    if symbol {
        extend(&mut chars, SYMBOL.as_slice());
        let byte = draw(SYMBOL.as_slice(), &mut rng);
        proof {
            lemma_member_in_pool(byte, upper, lower, number, symbol);
            lemma_push_of_pool(pass@, byte, upper, lower, number, symbol);
        }
        pass.push(byte);
    }
    assert(chars@ =~= pool(upper, lower, number, symbol));
    let total: usize = length as usize;
    while pass.len() < total
        invariant
            pass@.len() <= total,
            total == length,
            chars@ == pool(upper, lower, number, symbol),
            classes(upper, lower, number, symbol) > 0 || length == 0,
            is_password(pass@, pass@.len(), upper, lower, number, symbol),
        decreases total - pass@.len(),
    {
        let byte = draw(chars.as_slice(), &mut rng);
        proof {
            lemma_push_of_pool(pass@, byte, upper, lower, number, symbol);
        }
        pass.push(byte);
    }
    let ghost before = pass@;
    shuffle_bytes(&mut pass, &mut rng);
    proof {
        lemma_permuted_password(before, pass@, length as nat, upper, lower, number, symbol);
    }
    pass
}

/// Every byte of the pool is an ASCII character.
proof fn lemma_pool_is_ascii(byte: u8, upper: bool, lower: bool, number: bool, symbol: bool)
    requires
        pool(upper, lower, number, symbol).contains(byte),
    ensures
        byte < 128,
{
    let p = pool(upper, lower, number, symbol);
    let i = choose|i: int| 0 <= i < p.len() && p[i] == byte;
    assert(forall|k: int| 0 <= k < 24 ==> UPPER@[k] < 128);
    assert(forall|k: int| 0 <= k < 24 ==> LOWER@[k] < 128);
    assert(forall|k: int| 0 <= k < 9 ==> NUMBER@[k] < 128);
    assert(forall|k: int| 0 <= k < 9 ==> SYMBOL@[k] < 128);
}

/// ASCII bytes are the UTF-8 encoding of the characters with the same
/// numbers.
proof fn lemma_ascii_bytes_are_text(bytes: Seq<u8>) -> (text: Seq<char>)
    requires
        forall|i: int| 0 <= i < bytes.len() ==> #[trigger] bytes[i] < 128,
    ensures
        is_ascii_chars(text),
        text.len() == bytes.len(),
        encode_utf8(text) == bytes,
{
    let text = Seq::new(bytes.len(), |i: int| bytes[i] as char);
    assert(is_ascii_chars(text));
    is_ascii_chars_encode_utf8(text);
    assert(encode_utf8(text) =~= bytes) by {
        assert forall|i: int| 0 <= i < bytes.len() implies encode_utf8(text)[i] == bytes[i] by {
            assert(text[i] as u8 == encode_utf8(text)[i]);
        }
    }
    text
}

/// A random password of `length` characters over the enabled classes, with
/// at least one character of each.
///
/// `length` must leave room for one character of each enabled class, and a
/// password that is not empty needs a class to draw from.
pub fn process_gen_pass(length: u8, upper: bool, lower: bool, number: bool, symbol: bool) -> (password: String)
    requires
        classes(upper, lower, number, symbol) <= length,
        classes(upper, lower, number, symbol) > 0 || length == 0,
    ensures
        is_ascii_chars(password@),
        password@.len() == length,
        is_password(encode_utf8(password@), length as nat, upper, lower, number, symbol),
{
    let bytes = password_bytes(length, upper, lower, number, symbol);
    proof {
        assert forall|i: int| 0 <= i < bytes@.len() implies #[trigger] bytes@[i] < 128 by {
            lemma_pool_is_ascii(bytes@[i], upper, lower, number, symbol);
        }
        let text = lemma_ascii_bytes_are_text(bytes@);
        encode_utf8_valid_utf8(text);
        encode_utf8_decode_utf8(text);
    }
    match text_from_utf8(bytes) {
        Ok(password) => password,
        Err(_) => unreached(),
    }
}

} // verus!
