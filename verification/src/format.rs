//! The format tags of the command line, and how they are read and written.

use vstd::prelude::*;
use crate::ascii::same_text;
use crate::error::TextError;

verus! {

/// The flavour of base64 to write or read.
#[derive(Debug, Clone, Copy, PartialEq, Eq, Structural)]
pub enum Base64Format {
    /// The standard alphabet, with padding.
    Standard,
    /// The URL-safe alphabet, without padding.
    UrlSafe,
}

impl Base64Format {
    /// The format that the word `value` names, if it names one.
    pub open spec fn named(value: Seq<char>) -> Option<Base64Format> {
        if value == "standard"@ {
            Some(Base64Format::Standard)
        } else if value == "urlsafe"@ {
            Some(Base64Format::UrlSafe)
        } else {
            None
        }
    }

    /// The word that names this format on the command line.
    pub open spec fn name(&self) -> Seq<char> {
        match self {
            Base64Format::Standard => "standard"@,
            Base64Format::UrlSafe => "urlsafe"@,
        }
    }

    /// Reads a format from the word that names it: `standard` or `urlsafe`.
    /// Any other word is refused with `UnsupportedFormat`.
    pub fn from_str(value: &str) -> (format: Result<Base64Format, TextError>)
        ensures
            match format {
                Ok(f) => Self::named(value@) == Some(f),
                Err(e) => Self::named(value@) is None && e == TextError::UnsupportedFormat,
            },
    {
        proof {
            reveal_strlit("standard");
            reveal_strlit("urlsafe");
        }
        if same_text(value, "standard") {
            Ok(Base64Format::Standard)
        } else if same_text(value, "urlsafe") {
            Ok(Base64Format::UrlSafe)
        } else {
            Err(TextError::UnsupportedFormat)
        }
    }

    /// The word that names this format on the command line.
    pub fn as_str(&self) -> (word: &'static str)
        ensures
            word@ == self.name(),
    {
        match self {
            Base64Format::Standard => "standard",
            Base64Format::UrlSafe => "urlsafe",
        }
    }

    /// The word that names this format, as an owned string.
    pub fn to_string(&self) -> (word: String)
        ensures
            word@ == self.name(),
    {
        self.as_str().to_owned()
    }
}

/// Reads the value of `--format`.
pub fn parse_base64_format(format: &str) -> (parsed: Result<Base64Format, TextError>)
    ensures
        match parsed {
            Ok(f) => Base64Format::named(format@) == Some(f),
            Err(e) => Base64Format::named(format@) is None && e == TextError::UnsupportedFormat,
        },
{
    Base64Format::from_str(format)
}

/// A format is read back from its own name.
pub proof fn base64_format_name_round_trip(format: Base64Format)
    ensures
        Base64Format::named(format.name()) == Some(format),
{
    reveal_strlit("standard");
    reveal_strlit("urlsafe");
    assert("urlsafe"@.len() != "standard"@.len());
}

/// The algorithm a `text` sub-command works with.
#[derive(Debug, Clone, Copy, PartialEq, Eq, Structural)]
pub enum TextSignFormat {
    /// Keyed hashing with BLAKE3.
    Blake3,
    /// Asymmetric signatures with Ed25519.
    Ed25519,
    /// Authenticated encryption with ChaCha20-Poly1305.
    Chacha,
}

impl TextSignFormat {
    /// The format that the word `value` names, if it names one.
    pub open spec fn named(value: Seq<char>) -> Option<TextSignFormat> {
        if value == "blake3"@ {
            Some(TextSignFormat::Blake3)
        } else if value == "ed25519"@ {
            Some(TextSignFormat::Ed25519)
        } else if value == "chacha"@ {
            Some(TextSignFormat::Chacha)
        } else {
            None
        }
    }

    /// The word that names this format on the command line.
    pub open spec fn name(&self) -> Seq<char> {
        match self {
            TextSignFormat::Blake3 => "blake3"@,
            TextSignFormat::Ed25519 => "ed25519"@,
            TextSignFormat::Chacha => "chacha"@,
        }
    }

    /// Reads a format from the word that names it: `blake3`, `ed25519` or
    /// `chacha`. Any other word is refused with `UnsupportedFormat`.
    pub fn from_str(value: &str) -> (format: Result<TextSignFormat, TextError>)
        ensures
            match format {
                Ok(f) => Self::named(value@) == Some(f),
                Err(e) => Self::named(value@) is None && e == TextError::UnsupportedFormat,
            },
    {
        proof {
            reveal_strlit("blake3");
            reveal_strlit("ed25519");
            reveal_strlit("chacha");
        }
        if same_text(value, "blake3") {
            Ok(TextSignFormat::Blake3)
        } else if same_text(value, "ed25519") {
            Ok(TextSignFormat::Ed25519)
        } else if same_text(value, "chacha") {
            Ok(TextSignFormat::Chacha)
        } else {
            Err(TextError::UnsupportedFormat)
        }
    }

    /// The word that names this format on the command line.
    pub fn as_str(&self) -> (word: &'static str)
        ensures
            word@ == self.name(),
    {
        match self {
            TextSignFormat::Blake3 => "blake3",
            TextSignFormat::Ed25519 => "ed25519",
            TextSignFormat::Chacha => "chacha",
        }
    }

    /// The word that names this format, as an owned string.
    pub fn to_string(&self) -> (word: String)
        ensures
            word@ == self.name(),
    {
        self.as_str().to_owned()
    }
}

/// Reads the value of `--format`. An unknown word fails here, before any
/// input is touched.
pub fn parse_sign_format(format: &str) -> (parsed: Result<TextSignFormat, TextError>)
    ensures
        match parsed {
            Ok(f) => TextSignFormat::named(format@) == Some(f),
            Err(e) => TextSignFormat::named(format@) is None && e == TextError::UnsupportedFormat,
        },
{
    TextSignFormat::from_str(format)
}

/// A format is read back from its own name.
pub proof fn sign_format_name_round_trip(format: TextSignFormat)
    ensures
        TextSignFormat::named(format.name()) == Some(format),
{
    reveal_strlit("blake3");
    reveal_strlit("ed25519");
    reveal_strlit("chacha");
    assert("ed25519"@.len() != "blake3"@.len());
    assert("chacha"@[0] != "blake3"@[0]);
    assert("chacha"@.len() != "ed25519"@.len());
}

impl std::str::FromStr for Base64Format {
    type Err = TextError;

    /// Reads a format from the word that names it, as the inherent
    /// `from_str` does: this is what `str::parse` calls.
    fn from_str(value: &str) -> (format: Result<Self, TextError>)
        ensures
            match format {
                Ok(f) => Base64Format::named(value@) == Some(f),
                Err(e) => Base64Format::named(value@) is None && e == TextError::UnsupportedFormat,
            },
    {
        Base64Format::from_str(value)
    }
}

impl From<Base64Format> for &'static str {
    fn from(format: Base64Format) -> (word: &'static str) {
        match format {
            Base64Format::Standard => "standard",
            Base64Format::UrlSafe => "urlsafe",
        }
    }
}

impl vstd::std_specs::convert::FromSpecImpl<Base64Format> for &'static str {
    open spec fn obeys_from_spec() -> bool {
        true
    }

    open spec fn from_spec(format: Base64Format) -> &'static str {
        match format {
            Base64Format::Standard => "standard",
            Base64Format::UrlSafe => "urlsafe",
        }
    }
}

impl std::str::FromStr for TextSignFormat {
    type Err = TextError;

    /// Reads a format from the word that names it, as the inherent
    /// `from_str` does: this is what `str::parse` calls.
    fn from_str(value: &str) -> (format: Result<Self, TextError>)
        ensures
            match format {
                Ok(f) => TextSignFormat::named(value@) == Some(f),
                Err(e) => TextSignFormat::named(value@) is None && e == TextError::UnsupportedFormat,
            },
    {
        TextSignFormat::from_str(value)
    }
}

impl From<TextSignFormat> for &'static str {
    fn from(format: TextSignFormat) -> (word: &'static str) {
        match format {
            TextSignFormat::Blake3 => "blake3",
            TextSignFormat::Ed25519 => "ed25519",
            TextSignFormat::Chacha => "chacha",
        }
    }
}

impl vstd::std_specs::convert::FromSpecImpl<TextSignFormat> for &'static str {
    open spec fn obeys_from_spec() -> bool {
        true
    }

    open spec fn from_spec(format: TextSignFormat) -> &'static str {
        match format {
            TextSignFormat::Blake3 => "blake3",
            TextSignFormat::Ed25519 => "ed25519",
            TextSignFormat::Chacha => "chacha",
        }
    }
}

} // verus!
