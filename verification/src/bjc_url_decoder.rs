//! Decoding of bjcloudvod links.
//!
//! A link is the fixed scheme prefix followed by URL-safe, unpadded base64
//! text. The decoded bytes hold a key byte first; every later byte, shifted
//! down by a per-position step derived from the key, is one character of the
//! direct media URL.

use vstd::prelude::*;
use vstd::string::StrSliceExecFns;
use vstd::string::StringExecFns;

verus! {

/// The fixed scheme prefix of a bjcloudvod link, 13 characters.
pub open spec fn scheme_prefix() -> Seq<char> {
    "bjcloudvod://"@
}

/// Whether the link text begins with the scheme prefix.
pub open spec fn has_scheme_prefix(u: Seq<char>) -> bool {
    u.len() >= 13 && u.subrange(0, 13) == scheme_prefix()
}

/// The encoded body: the text after the scheme prefix.
pub open spec fn encoded_body(u: Seq<char>) -> Seq<char>
    recommends
        has_scheme_prefix(u),
{
    u.subrange(13, u.len() as int)
}

/// What base64's URL-safe, unpadded decoding returns for the given text:
/// `Some` of the decoded bytes, or `None` where the text is rejected.
pub uninterp spec fn b64_url_decode(s: Seq<char>) -> Option<Seq<u8>>;

#[verifier::external_type_specification]
#[verifier::external_body]
pub struct ExDecodeError(base64::DecodeError);

/// Relies on base64's `Engine::decode` on the `URL_SAFE_NO_PAD` engine:
/// whether the text decodes, and to which bytes, depends on the text alone.
#[verifier::external_body]
fn base64_decode_url_safe(s: &str) -> (r: Result<Vec<u8>, base64::DecodeError>)
    ensures
        match r {
            Ok(b) => b64_url_decode(s@) == Some(b@),
            Err(_) => b64_url_decode(s@) is None,
        },
{
    base64::Engine::decode(&base64::engine::general_purpose::URL_SAFE_NO_PAD, s)
}

/// Relies on `alloc::string::String::push`: appends one character.
pub assume_specification[ String::push ](s: &mut String, c: char)
    ensures
        final (s)@ == old(s)@.push(c),
;

/// The per-link obfuscation key: the first decoded byte reduced mod 8.
pub open spec fn obfuscation_key(payload: Seq<u8>) -> u8
    recommends
        payload.len() >= 1,
{
    payload[0] % 8
}

/// The offset subtracted from the byte at zero-based position `i` of the
/// payload's tail. At most 24, since the key is below 8.
pub open spec fn step_at(c: u8, i: int) -> u8
    recommends
        c < 8,
        i >= 0,
{
    ((i % 4) * (c as int) + (i % 3) + 1) as u8
}

/// Subtraction wrapping modulo 256.
pub open spec fn wrap_sub(b: u8, s: u8) -> u8 {
    if b >= s {
        (b - s) as u8
    } else {
        (b - s + 256) as u8
    }
}

/// The text recovered from a non-empty payload: the first byte only keys the
/// transform; each later byte, shifted down by its step, is read as the
/// Unicode code point equal to the byte value, 0 through 255.
pub open spec fn decoded_text(payload: Seq<u8>) -> Seq<char>
    recommends
        payload.len() >= 1,
{
    Seq::new(
        (payload.len() - 1) as nat,
        |i: int| wrap_sub(payload[i + 1], step_at(obfuscation_key(payload), i)) as char,
    )
}

/// Why a bjcloudvod link was rejected.
#[derive(Debug)]
pub enum BjcUrlDecodeError {
    /// The text does not begin with the scheme prefix, or its decoded payload
    /// holds no key byte; carries the rejected input.
    InvalidUrl(String),
    /// The text after the prefix is not valid URL-safe, unpadded base64.
    Base64DecodeError(base64::DecodeError),
}

/// Whether decoding the link succeeds: the scheme prefix is there, the body
/// is valid base64, and the payload holds at least the key byte.
pub open spec fn decode_ok(u: Seq<char>) -> bool {
    has_scheme_prefix(u) && b64_url_decode(encoded_body(u)) is Some && b64_url_decode(
        encoded_body(u),
    ).unwrap().len() >= 1
}

/// The direct media URL a decodable link hides.
pub open spec fn decoded_of(u: Seq<char>) -> Seq<char>
    recommends
        decode_ok(u),
{
    decoded_text(b64_url_decode(encoded_body(u)).unwrap())
}

/// Everything `decode_bjc_url` promises of its outcome, as a relation between
/// the input text and the result: exactly one of the three outcomes fits any
/// input, so the outcome is determined up to the base64 error's detail.
pub open spec fn decode_post(u: Seq<char>, r: Result<String, BjcUrlDecodeError>) -> bool {
    match r {
        Ok(s) => decode_ok(u) && s@ == decoded_of(u),
        Err(BjcUrlDecodeError::InvalidUrl(orig)) => orig@ == u && (!has_scheme_prefix(u)
            || (b64_url_decode(encoded_body(u)) matches Some(b) && b.len() == 0)),
        Err(BjcUrlDecodeError::Base64DecodeError(_)) => has_scheme_prefix(u)
            && b64_url_decode(encoded_body(u)) is None,
    }
}

/// Whether the link text begins with the scheme prefix.
fn has_prefix(url: &str) -> (b: bool)
    ensures
        b == has_scheme_prefix(url@),
{
    proof {
        reveal_strlit("bjcloudvod://");
    }
    let p = "bjcloudvod://";
    if url.unicode_len() < 13 {
        return false;
    }
    let mut i: usize = 0;
    while i < 13
        invariant
            0 <= i <= 13,
            url@.len() >= 13,
            p@ == scheme_prefix(),
            p@.len() == 13,
            forall|j: int| 0 <= j < i ==> url@[j] == p@[j],
        decreases 13 - i,
    {
        if url.get_char(i) != p.get_char(i) {
            proof {
                assert(url@.subrange(0, 13)[i as int] != scheme_prefix()[i as int]);
            }
            return false;
        }
        i += 1;
    }
    proof {
        assert(url@.subrange(0, 13) =~= scheme_prefix());
    }
    true
}

/// Decode a bjcloudvod link into the direct media URL hidden in it.
///
/// Rejects text without the scheme prefix, text whose body is not URL-safe
/// unpadded base64, and a decoded payload too short to hold the key byte.
/// On success the decoded text is one character per payload byte after the
/// key, so its length is the payload's length less one.
pub fn decode_bjc_url(url: &str) -> (r: Result<String, BjcUrlDecodeError>)
    ensures
        decode_post(url@, r),
        r matches Ok(s) ==> s@.len() + 1 == b64_url_decode(encoded_body(url@)).unwrap().len(),
{
    if !has_prefix(url) {
        return Err(BjcUrlDecodeError::InvalidUrl(String::from_str(url)));
    }
    let n = url.unicode_len();
    let body = url.substring_char(13, n);
    let payload = match base64_decode_url_safe(body) {
        Ok(p) => p,
        Err(e) => {
            return Err(BjcUrlDecodeError::Base64DecodeError(e));
        },
    };
    if payload.len() == 0 {
        return Err(BjcUrlDecodeError::InvalidUrl(String::from_str(url)));
    }
    let c = payload[0] % 8;
    let mut out = String::new();
    let mut i: usize = 0;
    while i < payload.len() - 1
        invariant
            payload@.len() >= 1,
            i <= payload@.len() - 1,
            c == obfuscation_key(payload@),
            out@ =~= decoded_text(payload@).take(i as int),
        decreases payload@.len() - 1 - i,
    {
        let q: usize = i % 4;
        let r3: usize = i % 3;
        proof {
            assert(q * (c as usize) <= 21) by (nonlinear_arith)
                requires
                    q <= 3,
                    c <= 7,
            ;
        }
        let step: usize = q * (c as usize) + r3 + 1;
        let b = payload[i + 1].wrapping_sub(step as u8);
        proof {
            assert(step as u8 == step_at(c, i as int));
            assert(b == wrap_sub(payload@[i as int + 1], step_at(c, i as int)));
        }
        out.push(b as char);
        i += 1;
    }
    proof {
        assert(out@ =~= decoded_text(payload@));
    }
    Ok(out)
}

/// Determinism of decoding: any two outcomes that the decode contract allows
/// for the same input agree — the same decoded text, or the same error kind
/// with the same diagnostic input.
pub proof fn lemma_decode_deterministic(
    u: Seq<char>,
    r1: Result<String, BjcUrlDecodeError>,
    r2: Result<String, BjcUrlDecodeError>,
)
    requires
        decode_post(u, r1),
        decode_post(u, r2),
    ensures
        match (r1, r2) {
            (Ok(s1), Ok(s2)) => s1@ == s2@,
            (Err(e1), Err(e2)) => match (e1, e2) {
                (BjcUrlDecodeError::InvalidUrl(a), BjcUrlDecodeError::InvalidUrl(b)) => a@ == b@,
                (
                    BjcUrlDecodeError::Base64DecodeError(_),
                    BjcUrlDecodeError::Base64DecodeError(_),
                ) => true,
                _ => false,
            },
            _ => false,
        },
{
}

} // verus!
