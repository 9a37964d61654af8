use vstd::prelude::*;

use crate::cli::text::TextSignFormat;
use crate::errors::RcliError;
use crate::process::b64::{
    b64_decode_standard, b64_encode_standard, b64_standard_decoded, b64_standard_of,
};
use crate::utils::bytes_eq;
use vstd::slice::slice_to_vec;
use vstd::string::StringSliceAdditionalSpecFns;

verus! {

// ------------------------------------------------------------------
// The mathematical model of the two schemes.
//
// The primitives themselves live in outside crates; their results are
// functions of their inputs alone, so they are named here and every
// contract speaks of the names.
// ------------------------------------------------------------------

/// The 32-byte keyed BLAKE3 digest of `data` under the 32-byte `key`.
pub uninterp spec fn blake3_keyed_hash(key: Seq<u8>, data: Seq<u8>) -> Seq<u8>;

/// The 64-byte Ed25519 signature over `data` by the key with seed `seed`.
pub uninterp spec fn ed25519_signature(seed: Seq<u8>, data: Seq<u8>) -> Seq<u8>;

/// The 32-byte Ed25519 public key derived from the seed `seed`.
pub uninterp spec fn ed25519_public_key(seed: Seq<u8>) -> Seq<u8>;

/// Whether Ed25519 verification accepts `sig` over `data` under the public
/// key bytes `public`. Bytes that do not decode to a valid public key
/// accept nothing.
pub uninterp spec fn ed25519_accepts(public: Seq<u8>, data: Seq<u8>, sig: Seq<u8>) -> bool;

/// The key length each scheme requires at load time.
pub open spec fn scheme_key_length(format: TextSignFormat) -> nat {
    match format {
        TextSignFormat::Blake3 => 32,
        TextSignFormat::Ed25519 => 32,
    }
}

/// The fixed signature length of each scheme.
pub open spec fn scheme_signature_length(format: TextSignFormat) -> nat {
    match format {
        TextSignFormat::Blake3 => 32,
        TextSignFormat::Ed25519 => 64,
    }
}

/// The signature the scheme produces over `data` with signing key `key`.
pub open spec fn scheme_signature(format: TextSignFormat, key: Seq<u8>, data: Seq<u8>) -> Seq<u8> {
    match format {
        TextSignFormat::Blake3 => blake3_keyed_hash(key, data),
        TextSignFormat::Ed25519 => ed25519_signature(key, data),
    }
}

/// The key that verifies what was signed with `key`: the same key for the
/// keyed hash, the derived public key for Ed25519.
pub open spec fn scheme_verifying_key(format: TextSignFormat, key: Seq<u8>) -> Seq<u8> {
    match format {
        TextSignFormat::Blake3 => key,
        TextSignFormat::Ed25519 => ed25519_public_key(key),
    }
}

/// Whether the scheme's verifier accepts `sig` over `data` under the
/// verifying key `vkey`.
pub open spec fn scheme_accepts(
    format: TextSignFormat,
    vkey: Seq<u8>,
    data: Seq<u8>,
    sig: Seq<u8>,
) -> bool {
    match format {
        TextSignFormat::Blake3 => sig == blake3_keyed_hash(vkey, data),
        TextSignFormat::Ed25519 => ed25519_accepts(vkey, data, sig),
    }
}

// ------------------------------------------------------------------
// Trusted wrappers over the cryptographic primitives.
// ------------------------------------------------------------------

/// Relies on `blake3::keyed_hash`: a 32-byte keyed digest, a function of
/// the key and the input alone.
#[verifier::external_body]
fn blake3_tag(key: &[u8], data: &[u8]) -> (r: Vec<u8>)
    requires
        key@.len() == 32,
    ensures
        r@ == blake3_keyed_hash(key@, data@),
        r@.len() == 32,
{
    let key: &[u8; 32] = key.try_into().unwrap();
    blake3::keyed_hash(key, data).as_bytes().to_vec()
}

/// Relies on `ed25519_dalek::SigningKey::from_bytes` and `Signer::sign`:
/// Ed25519 signing is deterministic, so the 64-byte signature is a function
/// of the seed and the message alone; and dalek's verifier accepts what its
/// signer produced under the derived public key.
#[verifier::external_body]
fn ed25519_sign_tag(seed: &[u8], data: &[u8]) -> (r: Vec<u8>)
    requires
        seed@.len() == 32,
    ensures
        r@ == ed25519_signature(seed@, data@),
        r@.len() == 64,
        ed25519_accepts(ed25519_public_key(seed@), data@, r@),
{
    let seed: &[u8; 32] = seed.try_into().unwrap();
    let sk = ed25519_dalek::SigningKey::from_bytes(seed);
    let sig = ed25519_dalek::Signer::sign(&sk, data);
    sig.to_bytes().to_vec()
}

/// Relies on `ed25519_dalek::SigningKey::from_bytes` and `verifying_key`:
/// the public key is derived from the seed deterministically.
#[verifier::external_body]
fn ed25519_derive_public(seed: &[u8]) -> (r: Vec<u8>)
    requires
        seed@.len() == 32,
    ensures
        r@ == ed25519_public_key(seed@),
        r@.len() == 32,
{
    let seed: &[u8; 32] = seed.try_into().unwrap();
    let sk = ed25519_dalek::SigningKey::from_bytes(seed);
    sk.verifying_key().as_bytes().to_vec()
}

/// Relies on `ed25519_dalek::VerifyingKey::from_bytes` and
/// `Verifier::verify`: acceptance is a function of the public-key bytes,
/// the message and the signature; key bytes that do not decode to a valid
/// curve point accept nothing.
#[verifier::external_body]
fn ed25519_check(public: &[u8], data: &[u8], sig: &[u8]) -> (r: bool)
    requires
        public@.len() == 32,
        sig@.len() == 64,
    ensures
        r == ed25519_accepts(public@, data@, sig@),
{
    let public: &[u8; 32] = public.try_into().unwrap();
    let sig: &[u8; 64] = sig.try_into().unwrap();
    match ed25519_dalek::VerifyingKey::from_bytes(public) {
        Ok(vk) => {
            let signature = ed25519_dalek::Signature::from_bytes(sig);
            ed25519_dalek::Verifier::verify(&vk, data, &signature).is_ok()
        },
        Err(_) => false,
    }
}

/// Relies on rand's `OsRng` (`RngCore::fill_bytes`): 32 bytes from the
/// operating system's entropy source; nothing is assumed of their values.
#[verifier::external_body]
fn random_bytes_32() -> (r: Vec<u8>)
    ensures
        r@.len() == 32,
{
    let mut buf = [0u8; 32];
    rand::RngCore::fill_bytes(&mut rand::rngs::OsRng, &mut buf);
    buf.to_vec()
}

// ------------------------------------------------------------------
// The capability set every scheme implements.
// ------------------------------------------------------------------

/// The signing capability: produces a tag over a whole byte stream.
pub trait TextSign {
    /// The signature this signer computes, as a function of its key and
    /// the data.
    spec fn signature_spec(&self, data: Seq<u8>) -> Seq<u8>;

    /// Acceptance, by the verifier that matches this signer, of a tag over
    /// the data.
    spec fn certifies(&self, data: Seq<u8>, sig: Seq<u8>) -> bool;

    /// The fixed length of the tags this signer produces.
    spec fn signature_len(&self) -> nat;

    /// Signs the whole of `data`. The signature it returns is the one its
    /// own verifier accepts.
    fn sign(&self, data: &[u8]) -> (r: Result<Vec<u8>, RcliError>)
        ensures
            r.is_ok(),
            r matches Ok(sig) ==> sig@ == self.signature_spec(data@)
                && sig@.len() == self.signature_len() && self.certifies(data@, sig@),
    ;
}

/// The verifying capability: checks a tag over a whole byte stream.
pub trait TextVerify {
    /// Acceptance of a tag over the data under this verifier's key.
    spec fn accepts(&self, data: Seq<u8>, sig: Seq<u8>) -> bool;

    /// The fixed signature length this verifier parses.
    spec fn signature_len(&self) -> nat;

    /// Checks `sig` over the whole of `data`. A mismatch is the normal
    /// `Ok(false)`; only a tag of the wrong length is an error.
    fn verify(&self, data: &[u8], sig: &[u8]) -> (r: Result<bool, RcliError>)
        ensures
            match r {
                Ok(b) => sig@.len() == self.signature_len() && b == self.accepts(data@, sig@),
                Err(e) => e == RcliError::MalformedSignature && sig@.len() != self.signature_len(),
            },
    ;
}

/// The key-loading capability: validated construction from raw bytes.
pub trait KeyLoader: Sized {
    /// The key length the scheme requires.
    spec fn required_key_len() -> nat;

    /// The raw bytes the loaded key holds.
    spec fn key_view(&self) -> Seq<u8>;

    /// Builds the typed key from raw bytes. Exactly the required length is
    /// accepted; anything shorter or longer is `InvalidKeyLength`.
    fn load(key: &[u8]) -> (r: Result<Self, RcliError>)
        ensures
            match r {
                Ok(t) => key@.len() == Self::required_key_len() && t.key_view() == key@,
                Err(e) => e == RcliError::InvalidKeyLength && key@.len()
                    != Self::required_key_len(),
            },
    ;
}

/// The key-generation capability: fresh key material per scheme.
pub trait KeyGenerator {
    /// The shape of the buffers generation returns.
    spec fn generated_ok(keys: Seq<Vec<u8>>) -> bool;

    /// Draws fresh key material: one buffer for a symmetric scheme, the
    /// (private, public) pair for an asymmetric one.
    fn generate() -> (r: Result<Vec<Vec<u8>>, RcliError>)
        ensures
            r.is_ok(),
            r matches Ok(keys) ==> Self::generated_ok(keys@),
    ;
}

// ------------------------------------------------------------------
// The keyed-hash scheme.
// ------------------------------------------------------------------

/// The keyed-hash scheme: a 32-byte symmetric key, used both to sign and
/// to verify.
#[derive(Debug)]
pub struct Blake3 {
    key: Vec<u8>,
}

impl View for Blake3 {
    type V = Seq<u8>;

    closed spec fn view(&self) -> Seq<u8> {
        self.key@
    }
}

impl Blake3 {
    #[verifier::type_invariant]
    spec fn type_inv(self) -> bool {
        self.key@.len() == 32
    }

    /// Wraps an exactly-sized key.
    pub fn new(key: [u8; 32]) -> (r: Self)
        ensures
            r@ == key@,
    {
        Blake3 { key: slice_to_vec(key.as_slice()) }
    }

    /// Builds the key from raw bytes; exactly 32 bytes are accepted.
    pub fn try_new(key: &[u8]) -> (r: Result<Self, RcliError>)
        ensures
            match r {
                Ok(t) => key@.len() == 32 && t@ == key@,
                Err(e) => e == RcliError::InvalidKeyLength && key@.len() != 32,
            },
    {
        if key.len() != 32 {
            return Err(RcliError::InvalidKeyLength);
        }
        Ok(Blake3 { key: slice_to_vec(key) })
    }
}

impl TextSign for Blake3 {
    open spec fn signature_spec(&self, data: Seq<u8>) -> Seq<u8> {
        blake3_keyed_hash(self@, data)
    }

    open spec fn certifies(&self, data: Seq<u8>, sig: Seq<u8>) -> bool {
        sig == blake3_keyed_hash(self@, data)
    }

    open spec fn signature_len(&self) -> nat {
        32
    }

    fn sign(&self, data: &[u8]) -> (r: Result<Vec<u8>, RcliError>) {
        proof {
            use_type_invariant(self);
        }
        Ok(blake3_tag(self.key.as_slice(), data))
    }
}

impl TextVerify for Blake3 {
    open spec fn accepts(&self, data: Seq<u8>, sig: Seq<u8>) -> bool {
        sig == blake3_keyed_hash(self@, data)
    }

    open spec fn signature_len(&self) -> nat {
        32
    }

    fn verify(&self, data: &[u8], sig: &[u8]) -> (r: Result<bool, RcliError>) {
        if sig.len() != 32 {
            return Err(RcliError::MalformedSignature);
        }
        proof {
            use_type_invariant(self);
        }
        let tag = blake3_tag(self.key.as_slice(), data);
        Ok(bytes_eq(tag.as_slice(), sig))
    }
}

impl KeyLoader for Blake3 {
    open spec fn required_key_len() -> nat {
        32
    }

    open spec fn key_view(&self) -> Seq<u8> {
        self@
    }

    fn load(key: &[u8]) -> (r: Result<Self, RcliError>) {
        Blake3::try_new(key)
    }
}

impl KeyGenerator for Blake3 {
    open spec fn generated_ok(keys: Seq<Vec<u8>>) -> bool {
        keys.len() == 1 && keys[0]@.len() == 32
    }

    fn generate() -> (r: Result<Vec<Vec<u8>>, RcliError>) {
        let key = random_bytes_32();
        let mut keys: Vec<Vec<u8>> = Vec::new();
        keys.push(key);
        Ok(keys)
    }
}

// ------------------------------------------------------------------
// The asymmetric (Ed25519) scheme.
// ------------------------------------------------------------------

/// The signing half of the asymmetric scheme: the 32-byte private seed.
#[derive(Debug)]
pub struct Ed25519Signer {
    key: Vec<u8>,
}

impl View for Ed25519Signer {
    type V = Seq<u8>;

    closed spec fn view(&self) -> Seq<u8> {
        self.key@
    }
}

impl Ed25519Signer {
    #[verifier::type_invariant]
    spec fn type_inv(self) -> bool {
        self.key@.len() == 32
    }

    /// Wraps an exactly-sized seed.
    pub fn new(key: [u8; 32]) -> (r: Self)
        ensures
            r@ == key@,
    {
        Ed25519Signer { key: slice_to_vec(key.as_slice()) }
    }

    /// Builds the signer from the raw seed; exactly 32 bytes are accepted,
    /// and the same seed reconstructs the same signer.
    pub fn try_new(key: &[u8]) -> (r: Result<Self, RcliError>)
        ensures
            match r {
                Ok(t) => key@.len() == 32 && t@ == key@,
                Err(e) => e == RcliError::InvalidKeyLength && key@.len() != 32,
            },
    {
        if key.len() != 32 {
            return Err(RcliError::InvalidKeyLength);
        }
        Ok(Ed25519Signer { key: slice_to_vec(key) })
    }
}

impl TextSign for Ed25519Signer {
    open spec fn signature_spec(&self, data: Seq<u8>) -> Seq<u8> {
        ed25519_signature(self@, data)
    }

    open spec fn certifies(&self, data: Seq<u8>, sig: Seq<u8>) -> bool {
        ed25519_accepts(ed25519_public_key(self@), data, sig)
    }

    open spec fn signature_len(&self) -> nat {
        64
    }

    fn sign(&self, data: &[u8]) -> (r: Result<Vec<u8>, RcliError>) {
        proof {
            use_type_invariant(self);
        }
        Ok(ed25519_sign_tag(self.key.as_slice(), data))
    }
}

impl KeyLoader for Ed25519Signer {
    open spec fn required_key_len() -> nat {
        32
    }

    open spec fn key_view(&self) -> Seq<u8> {
        self@
    }

    fn load(key: &[u8]) -> (r: Result<Self, RcliError>) {
        Ed25519Signer::try_new(key)
    }
}

impl KeyGenerator for Ed25519Signer {
    open spec fn generated_ok(keys: Seq<Vec<u8>>) -> bool {
        &&& keys.len() == 2
        &&& keys[0]@.len() == 32
        &&& keys[1]@.len() == 32
        &&& keys[1]@ == ed25519_public_key(keys[0]@)
    }

    fn generate() -> (r: Result<Vec<Vec<u8>>, RcliError>) {
        let sk = random_bytes_32();
        let pk = ed25519_derive_public(sk.as_slice());
        let mut keys: Vec<Vec<u8>> = Vec::new();
        keys.push(sk);
        keys.push(pk);
        Ok(keys)
    }
}

/// The verifying half of the asymmetric scheme: the 32-byte public key.
#[derive(Debug)]
pub struct Ed25519Verifier {
    key: Vec<u8>,
}

impl View for Ed25519Verifier {
    type V = Seq<u8>;

    closed spec fn view(&self) -> Seq<u8> {
        self.key@
    }
}

impl Ed25519Verifier {
    #[verifier::type_invariant]
    spec fn type_inv(self) -> bool {
        self.key@.len() == 32
    }

    /// Wraps an exactly-sized public key.
    pub fn new(key: [u8; 32]) -> (r: Self)
        ensures
            r@ == key@,
    {
        Ed25519Verifier { key: slice_to_vec(key.as_slice()) }
    }

    /// Builds the verifier from the raw public-key bytes; exactly 32 bytes
    /// are accepted. Whether they decode to a valid curve point shows at
    /// verification time: an invalid key accepts no signature.
    pub fn try_new(key: &[u8]) -> (r: Result<Self, RcliError>)
        ensures
            match r {
                Ok(t) => key@.len() == 32 && t@ == key@,
                Err(e) => e == RcliError::InvalidKeyLength && key@.len() != 32,
            },
    {
        if key.len() != 32 {
            return Err(RcliError::InvalidKeyLength);
        }
        Ok(Ed25519Verifier { key: slice_to_vec(key) })
    }
}

impl TextVerify for Ed25519Verifier {
    open spec fn accepts(&self, data: Seq<u8>, sig: Seq<u8>) -> bool {
        ed25519_accepts(self@, data, sig)
    }

    open spec fn signature_len(&self) -> nat {
        64
    }

    fn verify(&self, data: &[u8], sig: &[u8]) -> (r: Result<bool, RcliError>) {
        if sig.len() != 64 {
            return Err(RcliError::MalformedSignature);
        }
        proof {
            use_type_invariant(self);
        }
        Ok(ed25519_check(self.key.as_slice(), data, sig))
    }
}

impl KeyLoader for Ed25519Verifier {
    open spec fn required_key_len() -> nat {
        32
    }

    open spec fn key_view(&self) -> Seq<u8> {
        self@
    }

    fn load(key: &[u8]) -> (r: Result<Self, RcliError>) {
        Ed25519Verifier::try_new(key)
    }
}

// ------------------------------------------------------------------
// Dispatch by scheme identifier.
// ------------------------------------------------------------------

/// Signs the whole of `data` with the raw signing key `key` under the
/// chosen scheme. The signature it returns is the one the scheme's
/// verifier accepts under the matching verifying key.
pub fn sign(data: &[u8], key: &[u8], format: TextSignFormat) -> (r: Result<Vec<u8>, RcliError>)
    ensures
        match r {
            Ok(sig) => key@.len() == scheme_key_length(format)
                && sig@ == scheme_signature(format, key@, data@)
                && sig@.len() == scheme_signature_length(format)
                && scheme_accepts(format, scheme_verifying_key(format, key@), data@, sig@),
            Err(e) => e == RcliError::InvalidKeyLength && key@.len() != scheme_key_length(format),
        },
{
    match format {
        TextSignFormat::Blake3 => {
            match Blake3::try_new(key) {
                Ok(signer) => signer.sign(data),
                Err(e) => Err(e),
            }
        },
        TextSignFormat::Ed25519 => {
            match Ed25519Signer::try_new(key) {
                Ok(signer) => signer.sign(data),
                Err(e) => Err(e),
            }
        },
    }
}

/// Checks `sig` over the whole of `data` with the raw verifying key `key`
/// under the chosen scheme. A mismatched signature of the right length is
/// the normal `Ok(false)`; a signature of the wrong length is
/// `MalformedSignature`, and a key of the wrong length `InvalidKeyLength`.
pub fn verify(data: &[u8], key: &[u8], sig: &[u8], format: TextSignFormat) -> (r: Result<
    bool,
    RcliError,
>)
    ensures
        match r {
            Ok(b) => key@.len() == scheme_key_length(format) && sig@.len()
                == scheme_signature_length(format) && b == scheme_accepts(
                format,
                key@,
                data@,
                sig@,
            ),
            Err(e) => (e == RcliError::InvalidKeyLength && key@.len() != scheme_key_length(format))
                || (e == RcliError::MalformedSignature && key@.len() == scheme_key_length(format)
                && sig@.len() != scheme_signature_length(format)),
        },
{
    match format {
        TextSignFormat::Blake3 => {
            match Blake3::try_new(key) {
                Ok(verifier) => verifier.verify(data, sig),
                Err(e) => Err(e),
            }
        },
        TextSignFormat::Ed25519 => {
            match Ed25519Verifier::try_new(key) {
                Ok(verifier) => verifier.verify(data, sig),
                Err(e) => Err(e),
            }
        },
    }
}

/// Signs `data` and renders the signature as standard base64 text.
pub fn process_sign(data: &[u8], key: &[u8], format: TextSignFormat) -> (r: Result<
    String,
    RcliError,
>)
    ensures
        match r {
            Ok(text) => key@.len() == scheme_key_length(format) && text@ == b64_standard_of(
                scheme_signature(format, key@, data@),
            ),
            Err(e) => e == RcliError::InvalidKeyLength && key@.len() != scheme_key_length(format),
        },
{
    match sign(data, key, format) {
        Ok(sig) => Ok(b64_encode_standard(sig.as_slice())),
        Err(e) => Err(e),
    }
}

/// Checks a signature given as standard base64 text over `data`.
pub fn process_verify(data: &[u8], key: &[u8], sig: &str, format: TextSignFormat) -> (r: Result<
    bool,
    RcliError,
>)
    ensures
        match r {
            Ok(b) => key@.len() == scheme_key_length(format) && (b64_standard_decoded(
                sig.spec_bytes(),
            ) matches Some(s) && s.len() == scheme_signature_length(format) && b == scheme_accepts(
                format,
                key@,
                data@,
                s,
            )),
            Err(e) => (e == RcliError::InvalidKeyLength && key@.len() != scheme_key_length(format))
                || (e == RcliError::InvalidBase64 && key@.len() == scheme_key_length(format)
                && b64_standard_decoded(sig.spec_bytes()) is None) || (e
                == RcliError::MalformedSignature && key@.len() == scheme_key_length(format)
                && (b64_standard_decoded(sig.spec_bytes()) matches Some(s) && s.len()
                != scheme_signature_length(format))),
        },
{
    if key.len() != 32 {
        return Err(RcliError::InvalidKeyLength);
    }
    let sig_bytes = match b64_decode_standard(sig.as_bytes()) {
        Ok(v) => v,
        Err(e) => {
            return Err(e);
        },
    };
    verify(data, key, sig_bytes.as_slice(), format)
}

/// Draws fresh key material for the chosen scheme: one 32-byte buffer for
/// the keyed hash, the (private, public) pair of 32-byte buffers for
/// Ed25519, the public key being the one derived from the private seed.
pub fn process_generate(format: TextSignFormat) -> (r: Result<Vec<Vec<u8>>, RcliError>)
    ensures
        r.is_ok(),
        r matches Ok(keys) ==> (match format {
            TextSignFormat::Blake3 => keys@.len() == 1 && keys@[0]@.len() == 32,
            TextSignFormat::Ed25519 => keys@.len() == 2 && keys@[0]@.len() == 32
                && keys@[1]@.len() == 32 && keys@[1]@ == ed25519_public_key(keys@[0]@),
        }),
{
    match format {
        TextSignFormat::Blake3 => <Blake3 as KeyGenerator>::generate(),
        TextSignFormat::Ed25519 => <Ed25519Signer as KeyGenerator>::generate(),
    }
}

// ------------------------------------------------------------------
// Laws of the keyed-hash scheme.
// ------------------------------------------------------------------

/// Law: a keyed-hash signature produced with a key is accepted by
/// verification under that same key, for every key and every byte stream.
pub proof fn lemma_keyed_hash_round_trip(key: Seq<u8>, data: Seq<u8>)
    ensures
        scheme_accepts(
            TextSignFormat::Blake3,
            scheme_verifying_key(TextSignFormat::Blake3, key),
            data,
            scheme_signature(TextSignFormat::Blake3, key, data),
        ),
{
}

/// Law: under the keyed-hash scheme, every candidate tag other than the
/// digest the key produces is rejected, for every key and byte stream;
/// rejection is a result, not an error.
pub proof fn lemma_keyed_hash_rejects_forgery(key: Seq<u8>, data: Seq<u8>, sig: Seq<u8>)
    requires
        sig != scheme_signature(TextSignFormat::Blake3, key, data),
    ensures
        !scheme_accepts(TextSignFormat::Blake3, key, data, sig),
{
}

} // verus!
