use std::str::FromStr;
use vstd::prelude::*;

use crate::errors::RcliError;
use crate::utils::bytes_eq;
use vstd::string::StringSliceAdditionalSpecFns;

verus! {

/// The base64 subcommands: encode bytes as text, or decode text to bytes.
#[derive(Debug)]
pub enum Base64SubCommand {
    Encode(Base64EncodeOpts),
    Decode(Base64DecodeOpts),
}

/// Options for encoding: where the bytes come from, and the alphabet.
#[derive(Debug)]
pub struct Base64EncodeOpts {
    pub input: String,
    pub format: Base64Format,
}

/// Options for decoding: where the text comes from, and the alphabet.
#[derive(Debug)]
pub struct Base64DecodeOpts {
    pub input: String,
    pub format: Base64Format,
}

/// The base64 alphabet: the standard one, or the URL-safe one.
#[derive(Debug, Clone, Copy, PartialEq, Eq, Structural)]
pub enum Base64Format {
    Standard,
    UrlSafe,
}

/// Parses an alphabet identifier. Exactly `"standard"` and `"urlsafe"` are
/// recognized; anything else is `UnsupportedFormat`.
pub fn prese_base64_format(format: &str) -> (r: Result<Base64Format, RcliError>)
    ensures
        match r {
            Ok(f) => (f == Base64Format::Standard && format.spec_bytes() == "standard".spec_bytes())
                || (f == Base64Format::UrlSafe && format.spec_bytes() == "urlsafe".spec_bytes()),
            Err(e) => e == RcliError::UnsupportedFormat
                && format.spec_bytes() != "standard".spec_bytes()
                && format.spec_bytes() != "urlsafe".spec_bytes(),
        },
{
    if bytes_eq(format.as_bytes(), "standard".as_bytes()) {
        Ok(Base64Format::Standard)
    } else if bytes_eq(format.as_bytes(), "urlsafe".as_bytes()) {
        Ok(Base64Format::UrlSafe)
    } else {
        Err(RcliError::UnsupportedFormat)
    }
}

impl FromStr for Base64Format {
    type Err = RcliError;

    fn from_str(s: &str) -> Result<Self, Self::Err> {
        prese_base64_format(s)
    }
}

impl Base64Format {
    /// The identifier under which the alphabet is selected.
    pub fn as_str(&self) -> (r: &'static str)
        ensures
            r@ == (match *self {
                Base64Format::Standard => "standard"@,
                Base64Format::UrlSafe => "urlsafe"@,
            }),
    {
        match self {
            Base64Format::Standard => "standard",
            Base64Format::UrlSafe => "urlsafe",
        }
    }
}

} // verus!
