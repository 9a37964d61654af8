use std::str::FromStr;
use vstd::prelude::*;

use crate::errors::RcliError;
use crate::utils::bytes_eq;
use vstd::string::StringSliceAdditionalSpecFns;

verus! {

/// The text-signing subcommands: sign, verify, generate keys.
#[derive(Debug)]
pub enum TextSubCommand {
    Sign(TextSignOpts),
    Verify(TextVerifyOpts),
    Generate(TextGenerateOpts),
}

/// Options for signing: where the input and the key come from, and the scheme.
#[derive(Debug)]
pub struct TextSignOpts {
    pub input: String,
    pub key: String,
    pub format: TextSignFormat,
}

/// Options for verifying: input, key, scheme, and the signature as base64 text.
#[derive(Debug)]
pub struct TextVerifyOpts {
    pub input: String,
    pub key: String,
    pub format: TextSignFormat,
    pub sig: String,
}

/// Options for key generation: the scheme and the directory to write into.
#[derive(Debug)]
pub struct TextGenerateOpts {
    pub format: TextSignFormat,
    pub output: String,
}

/// The identifier of a signing scheme: a keyed hash, or an asymmetric
/// signature over the Ed25519 curve.
#[derive(Debug, Clone, Copy, PartialEq, Eq, Structural)]
pub enum TextSignFormat {
    Blake3,
    Ed25519,
}

/// Parses a scheme identifier. Exactly `"blake3"` and `"ed25519"` are
/// recognized; anything else is `UnsupportedScheme`.
pub fn prese_format(format: &str) -> (r: Result<TextSignFormat, RcliError>)
    ensures
        match r {
            Ok(f) => (f == TextSignFormat::Blake3 && format.spec_bytes() == "blake3".spec_bytes())
                || (f == TextSignFormat::Ed25519 && format.spec_bytes() == "ed25519".spec_bytes()),
            Err(e) => e == RcliError::UnsupportedScheme
                && format.spec_bytes() != "blake3".spec_bytes()
                && format.spec_bytes() != "ed25519".spec_bytes(),
        },
{
    if bytes_eq(format.as_bytes(), "blake3".as_bytes()) {
        Ok(TextSignFormat::Blake3)
    } else if bytes_eq(format.as_bytes(), "ed25519".as_bytes()) {
        Ok(TextSignFormat::Ed25519)
    } else {
        Err(RcliError::UnsupportedScheme)
    }
}

impl FromStr for TextSignFormat {
    type Err = RcliError;

    fn from_str(s: &str) -> Result<Self, Self::Err> {
        prese_format(s)
    }
}

impl TextSignFormat {
    /// The identifier under which the scheme is selected.
    pub fn as_str(&self) -> (r: &'static str)
        ensures
            r@ == (match *self {
                TextSignFormat::Blake3 => "blake3"@,
                TextSignFormat::Ed25519 => "ed25519"@,
            }),
    {
        match self {
            TextSignFormat::Blake3 => "blake3",
            TextSignFormat::Ed25519 => "ed25519",
        }
    }
}

} // verus!
