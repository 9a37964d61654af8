use vstd::prelude::*;

use crate::cli::base64::Base64Format;
use crate::errors::RcliError;
use vstd::slice::slice_subrange;

verus! {

/// What base64's standard-alphabet, padded encoder returns for the given
/// bytes: a function of the bytes alone.
pub uninterp spec fn b64_standard_of(bytes: Seq<u8>) -> Seq<char>;

/// What base64's URL-safe, padded encoder returns for the given bytes.
pub uninterp spec fn b64_url_safe_of(bytes: Seq<u8>) -> Seq<char>;

/// What base64's standard-alphabet decoder returns: the decoded bytes, or
/// `None` where the text is not valid standard base64.
pub uninterp spec fn b64_standard_decoded(text: Seq<u8>) -> Option<Seq<u8>>;

/// What base64's URL-safe decoder returns.
pub uninterp spec fn b64_url_safe_decoded(text: Seq<u8>) -> Option<Seq<u8>>;

/// The text the chosen alphabet's encoder produces for `bytes`.
pub open spec fn b64_encoded(format: Base64Format, bytes: Seq<u8>) -> Seq<char> {
    match format {
        Base64Format::Standard => b64_standard_of(bytes),
        Base64Format::UrlSafe => b64_url_safe_of(bytes),
    }
}

/// What the chosen alphabet's decoder returns for `text`.
pub open spec fn b64_decoded(format: Base64Format, text: Seq<u8>) -> Option<Seq<u8>> {
    match format {
        Base64Format::Standard => b64_standard_decoded(text),
        Base64Format::UrlSafe => b64_url_safe_decoded(text),
    }
}

/// Relies on base64's `Engine::encode` with `BASE64_STANDARD`: RFC 4648
/// standard alphabet with padding, whose output is 4 * ceil(n / 3)
/// characters for n input bytes.
#[verifier::external_body]
pub(crate) fn b64_encode_standard(data: &[u8]) -> (r: String)
    ensures
        r@ == b64_standard_of(data@),
        r@.len() == 4 * ((data@.len() + 2) / 3),
{
    base64::Engine::encode(&base64::prelude::BASE64_STANDARD, data)
}

/// Relies on base64's `Engine::encode` with `BASE64_URL_SAFE`: the URL-safe
/// alphabet with padding, with the same output length as the standard one.
#[verifier::external_body]
pub(crate) fn b64_encode_url_safe(data: &[u8]) -> (r: String)
    ensures
        r@ == b64_url_safe_of(data@),
        r@.len() == 4 * ((data@.len() + 2) / 3),
{
    base64::Engine::encode(&base64::prelude::BASE64_URL_SAFE, data)
}

/// Relies on base64's `Engine::decode` with `BASE64_STANDARD`: `Ok` exactly
/// on valid standard base64, and the decoded bytes are a function of the
/// text alone.
#[verifier::external_body]
pub(crate) fn b64_decode_standard(text: &[u8]) -> (r: Result<Vec<u8>, RcliError>)
    ensures
        match r {
            Ok(v) => b64_standard_decoded(text@) == Some(v@),
            Err(e) => e == RcliError::InvalidBase64 && b64_standard_decoded(text@) is None,
        },
{
    match base64::Engine::decode(&base64::prelude::BASE64_STANDARD, text) {
        Ok(v) => Ok(v),
        Err(_) => Err(RcliError::InvalidBase64),
    }
}

/// Relies on base64's `Engine::decode` with `BASE64_URL_SAFE`, as above.
#[verifier::external_body]
pub(crate) fn b64_decode_url_safe(text: &[u8]) -> (r: Result<Vec<u8>, RcliError>)
    ensures
        match r {
            Ok(v) => b64_url_safe_decoded(text@) == Some(v@),
            Err(e) => e == RcliError::InvalidBase64 && b64_url_safe_decoded(text@) is None,
        },
{
    match base64::Engine::decode(&base64::prelude::BASE64_URL_SAFE, text) {
        Ok(v) => Ok(v),
        Err(_) => Err(RcliError::InvalidBase64),
    }
}

/// ASCII whitespace, as trimmed from base64 text before decoding.
pub open spec fn is_b64_space(b: u8) -> bool {
    b == 32 || (9 <= b && b <= 13)
}

/// How many whitespace bytes the text starts with.
pub open spec fn leading_spaces(s: Seq<u8>) -> nat
    decreases s.len(),
{
    if s.len() == 0 {
        0
    } else if is_b64_space(s[0]) {
        1 + leading_spaces(s.drop_first())
    } else {
        0
    }
}

/// How many whitespace bytes the text ends with.
pub open spec fn trailing_spaces(s: Seq<u8>) -> nat
    decreases s.len(),
{
    if s.len() == 0 {
        0
    } else if is_b64_space(s.last()) {
        1 + trailing_spaces(s.drop_last())
    } else {
        0
    }
}

/// The text with leading and trailing ASCII whitespace removed.
pub open spec fn trimmed(s: Seq<u8>) -> Seq<u8> {
    let t = s.skip(leading_spaces(s) as int);
    t.take(t.len() - trailing_spaces(t) as int)
}

proof fn lemma_leading_spaces_bound(s: Seq<u8>)
    ensures
        leading_spaces(s) <= s.len(),
    decreases s.len(),
{
    if s.len() > 0 && is_b64_space(s[0]) {
        lemma_leading_spaces_bound(s.drop_first());
    }
}

proof fn lemma_trailing_spaces_bound(s: Seq<u8>)
    ensures
        trailing_spaces(s) <= s.len(),
    decreases s.len(),
{
    if s.len() > 0 && is_b64_space(s.last()) {
        lemma_trailing_spaces_bound(s.drop_last());
    }
}

/// The count of leading whitespace is the unique boundary with whitespace
/// everywhere before it and none (or the end) at it.
proof fn lemma_leading_spaces_is(s: Seq<u8>, i: int)
    requires
        0 <= i <= s.len(),
        forall|k: int| 0 <= k < i ==> is_b64_space(s[k]),
        i == s.len() || !is_b64_space(s[i]),
    ensures
        leading_spaces(s) == i,
    decreases s.len(),
{
    if s.len() == 0 {
    } else if i == 0 {
    } else {
        assert(is_b64_space(s[0]));
        let t = s.drop_first();
        assert(forall|k: int| 0 <= k < i - 1 ==> t[k] == s[k + 1]);
        lemma_leading_spaces_is(t, i - 1);
    }
}

proof fn lemma_trailing_spaces_is(s: Seq<u8>, j: int)
    requires
        0 <= j <= s.len(),
        forall|k: int| s.len() - j <= k < s.len() ==> is_b64_space(s[k]),
        j == s.len() || !is_b64_space(s[s.len() - j - 1]),
    ensures
        trailing_spaces(s) == j,
    decreases s.len(),
{
    if s.len() == 0 {
    } else if j == 0 {
    } else {
        assert(is_b64_space(s.last()));
        let t = s.drop_last();
        assert(forall|k: int| t.len() - (j - 1) <= k < t.len() ==> t[k] == s[k]);
        lemma_trailing_spaces_is(t, j - 1);
    }
}

fn is_space_byte(b: u8) -> (r: bool)
    ensures
        r == is_b64_space(b),
{
    b == 32 || (9 <= b && b <= 13)
}

/// Encodes the bytes as base64 text under the chosen alphabet.
pub fn process_encode(data: &[u8], format: Base64Format) -> (r: String)
    ensures
        r@ == b64_encoded(format, data@),
{
    match format {
        Base64Format::Standard => b64_encode_standard(data),
        Base64Format::UrlSafe => b64_encode_url_safe(data),
    }
}

/// Decodes base64 text under the chosen alphabet, after removing leading
/// and trailing ASCII whitespace (such as a final newline).
pub fn process_decode(input: &[u8], format: Base64Format) -> (r: Result<Vec<u8>, RcliError>)
    ensures
        match r {
            Ok(v) => b64_decoded(format, trimmed(input@)) == Some(v@),
            Err(e) => e == RcliError::InvalidBase64 && b64_decoded(format, trimmed(input@)) is None,
        },
{
    let n = input.len();
    let mut i: usize = 0;
    while i < n && is_space_byte(input[i])
        invariant
            n == input@.len(),
            0 <= i <= n,
            forall|k: int| 0 <= k < i ==> is_b64_space(input@[k]),
        decreases n - i,
    {
        i = i + 1;
    }
    let mut j: usize = n;
    while j > i && is_space_byte(input[j - 1])
        invariant
            n == input@.len(),
            i <= j <= n,
            forall|k: int| j <= k < n ==> is_b64_space(input@[k]),
        decreases j,
    {
        j = j - 1;
    }
    proof {
        lemma_leading_spaces_is(input@, i as int);
        let t = input@.skip(i as int);
        assert(forall|k: int| 0 <= k < t.len() ==> t[k] == input@[k + i]);
        lemma_trailing_spaces_is(t, n - j);
        assert(input@.subrange(i as int, j as int) =~= t.take(
            t.len() - trailing_spaces(t) as int,
        ));
        assert(trimmed(input@) == input@.subrange(i as int, j as int));
    }
    let body = slice_subrange(input, i, j);
    match format {
        Base64Format::Standard => b64_decode_standard(body),
        Base64Format::UrlSafe => b64_decode_url_safe(body),
    }
}

} // verus!
