use vstd::prelude::*;

verus! {

/// The failure kinds of the library: key handling, signature handling,
/// scheme selection and text decoding.
///
/// A failed verification (a well-formed signature that does not match) is
/// not an error: `verify` reports it as `Ok(false)`.
#[derive(Debug, Clone, Copy, PartialEq, Eq, Structural)]
pub enum RcliError {
    /// The supplied key bytes do not have the scheme's required length.
    InvalidKeyLength,
    /// The signature bytes do not have the scheme's fixed output length.
    MalformedSignature,
    /// A scheme identifier was not recognized.
    UnsupportedScheme,
    /// A textual format identifier was not recognized.
    UnsupportedFormat,
    /// Text that should hold base64 could not be decoded.
    InvalidBase64,
    /// The input byte stream could not be read. The library itself never
    /// reads streams; callers that do report their failures with this kind.
    StreamReadFailure,
}

impl RcliError {
    /// A short, fixed description of the error kind.
    pub fn message(&self) -> (r: &'static str)
        ensures
            r@ == (match *self {
                RcliError::InvalidKeyLength => "invalid key length"@,
                RcliError::MalformedSignature => "malformed signature"@,
                RcliError::UnsupportedScheme => "unsupported scheme"@,
                RcliError::UnsupportedFormat => "unsupported format"@,
                RcliError::InvalidBase64 => "invalid base64"@,
                RcliError::StreamReadFailure => "stream read failure"@,
            }),
    {
        match self {
            RcliError::InvalidKeyLength => "invalid key length",
            RcliError::MalformedSignature => "malformed signature",
            RcliError::UnsupportedScheme => "unsupported scheme",
            RcliError::UnsupportedFormat => "unsupported format",
            RcliError::InvalidBase64 => "invalid base64",
            RcliError::StreamReadFailure => "stream read failure",
        }
    }
}

} // verus!
