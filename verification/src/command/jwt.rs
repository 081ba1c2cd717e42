//! Options of the `jwt` sub-commands.

use vstd::prelude::*;
use crate::error::TextError;
use crate::process::jwt::{claims, moment_after, spelled_seconds, str_to_timestamp, JwtClaims};

verus! {

/// The `jwt` sub-commands.
#[derive(Debug)]
pub enum JwtSubCommand {
    /// Issue a token.
    Sign(JwtSignOpts),
    /// Verify a token.
    Verify(JwtVerifyOpts),
}

/// Options of `jwt sign`.
#[derive(Debug)]
pub struct JwtSignOpts {
    /// The key file's name.
    pub key: String,
    /// Whom the token is about.
    pub sub: String,
    /// Whom the token is for.
    pub aud: String,
    /// How long the token is valid from now on, such as `14d`.
    pub exp: String,
}

/// Options of `jwt verify`.
#[derive(Debug)]
pub struct JwtVerifyOpts {
    /// The key file's name.
    pub key: String,
    /// The token to verify.
    pub token: String,
}

impl JwtSignOpts {
    /// Whether `made` is what these options can claim at some reading of the
    /// clock: the subject and audience as given, and an expiry that lies the
    /// given duration after that reading.
    pub open spec fn claimed(&self, made: &Result<JwtClaims, TextError>) -> bool {
        match spelled_seconds(self.exp@) {
            Some(seconds) => exists|now: i64|
                match #[trigger] moment_after(now, seconds) {
                    Ok(moment) => match *made {
                        Ok(c) => c.sub@ == self.sub@ && c.aud@ == self.aud@ && c.exp == moment,
                        Err(e) => e == TextError::ExpiryOutOfRange && !(0 <= moment <= usize::MAX),
                    },
                    Err(e) => *made matches Err(f) && f == e,
                },
            None => *made matches Err(e) && e == TextError::InvalidDuration,
        }
    }

    /// The claims of the token that these options ask for, as of now.
    pub fn claims(&self) -> (made: Result<JwtClaims, TextError>)
        ensures
            self.claimed(&made),
    {
        match str_to_timestamp(self.exp.as_str()) {
            Ok(moment) => {
                let made = claims(self.sub.as_str(), self.aud.as_str(), moment);
                proof {
                    let now = choose|now: i64|
                        Ok::<i64, TextError>(moment) == #[trigger] moment_after(
                            now,
                            spelled_seconds(self.exp@)->0,
                        );
                    assert(moment_after(now, spelled_seconds(self.exp@)->0) == Ok::<i64, TextError>(moment));
                }
                made
            },
            Err(e) => {
                proof {
                    if spelled_seconds(self.exp@) is Some {
                        let now = choose|now: i64|
                            Err::<i64, TextError>(e) == #[trigger] moment_after(
                                now,
                                spelled_seconds(self.exp@)->0,
                            );
                        assert(moment_after(now, spelled_seconds(self.exp@)->0) == Err::<i64, TextError>(e));
                    }
                }
                Err(e)
            },
        }
    }
}

} // verus!
