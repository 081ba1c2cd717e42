//! The claims of a web token and the key it is signed with. Encoding and
//! decoding the token itself is left to the caller.

use vstd::prelude::*;
use vstd::utf8::encode_utf8;
use crate::backend::time::{
    digits, duration_seconds, humantime_seconds, unix_now, MAX_DURATION_DIGITS,
};
use crate::bytes::leading_bytes;
use crate::error::TextError;
use crate::process::text::{key_material, KeyLoader, KEY_LEN};

verus! {

/// The claims that a token carries.
#[derive(Debug)]
pub struct JwtClaims {
    /// Whom the token is about.
    pub sub: String,
    /// Whom the token is for.
    pub aud: String,
    /// When the token expires, in seconds since the start of 1970.
    pub exp: usize,
}

/// The secret that tokens are signed with: 32 bytes.
pub struct JwtKey {
    key: [u8; 32],
}

impl View for JwtKey {
    type V = Seq<u8>;

    closed spec fn view(&self) -> Seq<u8> {
        self.key@
    }
}

impl JwtKey {
    /// The 32 bytes of the secret.
    pub fn secret(&self) -> (bytes: &[u8; 32])
        ensures
            bytes@ == self@,
    {
        &self.key
    }
}

impl KeyLoader for JwtKey {
    open spec fn material(&self) -> Seq<u8> {
        self@
    }

    open spec fn loaded(bytes: Seq<u8>) -> Result<Seq<u8>, TextError> {
        key_material(bytes)
    }

    fn load(bytes: &[u8]) -> (key: Result<Self, TextError>) {
        if bytes.len() < KEY_LEN {
            return Err(TextError::KeyTooShort);
        }
        Ok(JwtKey { key: leading_bytes::<32>(bytes) })
    }
}

/// The moment `seconds` after `now`, both in seconds, where it can be written
/// as an `i64`.
pub open spec fn moment_after(now: i64, seconds: u64) -> Result<i64, TextError> {
    if now + seconds <= i64::MAX {
        Ok((now + seconds) as i64)
    } else {
        Err(TextError::ExpiryOutOfRange)
    }
}

/// The moment `seconds` after `now`.
pub fn timestamp_after(now: i64, seconds: u64) -> (moment: Result<i64, TextError>)
    ensures
        moment == moment_after(now, seconds),
{
    let sum: i128 = now as i128 + seconds as i128;
    if sum <= i64::MAX as i128 {
        Ok(sum as i64)
    } else {
        Err(TextError::ExpiryOutOfRange)
    }
}

/// Whether `text` holds so many digits that it is not read as a duration.
pub open spec fn too_many_digits(text: Seq<char>) -> bool {
    digits(encode_utf8(text)) > MAX_DURATION_DIGITS
}

/// The whole seconds of the duration that `text` spells, or `None` where it
/// spells none or holds more than `MAX_DURATION_DIGITS` digits.
pub open spec fn spelled_seconds(text: Seq<char>) -> Option<u64> {
    if too_many_digits(text) {
        None
    } else {
        humantime_seconds(text)
    }
}

/// Whether `text` holds more digits than a duration may.
pub fn has_too_many_digits(text: &str) -> (too_many: bool)
    ensures
        too_many == too_many_digits(text@),
{
    let bytes = text.as_bytes();
    let mut count: usize = 0;
    let mut i: usize = 0;
    while i < bytes.len()
        invariant
            i <= bytes@.len(),
            count == digits(bytes@.subrange(0, i as int)),
            count <= i,
        decreases bytes@.len() - i,
    {
        proof {
            assert(bytes@.subrange(0, i + 1).drop_last() =~= bytes@.subrange(0, i as int));
        }
        if 0x30 <= bytes[i] && bytes[i] <= 0x39 {
            count += 1;
        }
        i += 1;
    }
    proof {
        assert(bytes@.subrange(0, i as int) =~= bytes@);
    }
    count > MAX_DURATION_DIGITS
}

/// The moment that lies the duration `text` after the present one.
///
/// Text that spells no duration is refused with `InvalidDuration`, and so is
/// text of more than `MAX_DURATION_DIGITS` digits, whatever it spells.
/// Otherwise there is a reading `now` of the clock for which the result is
/// `moment_after(now, seconds)`, with `seconds` the duration's whole seconds.
pub fn str_to_timestamp(text: &str) -> (moment: Result<i64, TextError>)
    ensures
        match spelled_seconds(text@) {
            Some(seconds) => exists|clock: i64| moment == #[trigger] moment_after(clock, seconds),
            None => moment == Err::<i64, TextError>(TextError::InvalidDuration),
        },
{
    if has_too_many_digits(text) {
        return Err(TextError::InvalidDuration);
    }
    match duration_seconds(text) {
        Ok(seconds) => {
            let now = unix_now();
            let moment = timestamp_after(now, seconds);
            assert(moment == moment_after(now, spelled_seconds(text@)->0));
            moment
        },
        Err(_) => Err(TextError::InvalidDuration),
    }
}

/// The claims of a token about `sub`, for `aud`, that expires at the moment
/// `timestamp`. A moment before 1970, or one that does not fit in `usize`, is
/// refused with `ExpiryOutOfRange`.
pub fn claims(sub: &str, aud: &str, timestamp: i64) -> (made: Result<JwtClaims, TextError>)
    ensures
        match made {
            Ok(c) => {
                &&& c.sub@ == sub@
                &&& c.aud@ == aud@
                &&& c.exp == timestamp
                &&& 0 <= timestamp <= usize::MAX
            },
            Err(e) => e == TextError::ExpiryOutOfRange && !(0 <= timestamp <= usize::MAX),
        },
{
    if timestamp < 0 || timestamp as u64 > usize::MAX as u64 {
        return Err(TextError::ExpiryOutOfRange);
    }
    Ok(JwtClaims { sub: sub.to_owned(), aud: aud.to_owned(), exp: timestamp as usize })
}

} // verus!
