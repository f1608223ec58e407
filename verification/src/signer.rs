//! The challenge signer.
//!
//! A private feed is opened by proving possession of the API secret: the
//! server issues a challenge string and expects the base64 text of
//! HMAC-SHA-512, keyed with the decoded secret, over the SHA-256 digest of the
//! challenge.

use base64::Engine;
use hmac::Mac;
use sha2::Digest;
use vstd::prelude::*;
use vstd::string::*;
use vstd::utf8::*;

verus! {

/// The SHA-256 digest of a byte string.
pub uninterp spec fn sha256(data: Seq<u8>) -> Seq<u8>;

/// The HMAC-SHA-512 tag of `data` under `key`.
pub uninterp spec fn hmac_sha512(key: Seq<u8>, data: Seq<u8>) -> Seq<u8>;

/// The bytes that a text stands for in standard, padded base64, where it is
/// valid base64 at all.
pub uninterp spec fn base64_decoded(text: Seq<char>) -> Option<Seq<u8>>;

/// The standard, padded base64 text of a byte string.
pub uninterp spec fn base64_encoded(data: Seq<u8>) -> Seq<char>;

#[verifier::external_type_specification]
#[verifier::external_body]
pub struct ExDecodeError(base64::DecodeError);

/// Why a challenge could not be signed.
#[derive(Clone, Copy, Debug, PartialEq, Eq, Structural)]
pub enum SignError {
    /// The API secret is not valid base64.
    InvalidSecretEncoding,
}

/// The length of an HMAC-SHA-512 tag, in bytes.
pub const TAG_LEN: usize = 64;

/// The signature of `challenge` under raw key bytes.
pub open spec fn signature_with_key(key: Seq<u8>, challenge: Seq<char>) -> Seq<char> {
    base64_encoded(hmac_sha512(key, sha256(encode_utf8(challenge))))
}

/// The signature of `challenge` under a base64 secret; `None` where the
/// secret is not valid base64.
pub open spec fn signature(secret: Seq<char>, challenge: Seq<char>) -> Option<Seq<char>> {
    match base64_decoded(secret) {
        Some(key) => Some(signature_with_key(key, challenge)),
        None => None,
    }
}

/// Whether `r` is the outcome of signing `challenge` with `secret`: the
/// signature where the secret is valid base64, and `InvalidSecretEncoding`
/// where it is not.
pub open spec fn sign_result(
    secret: Seq<char>,
    challenge: Seq<char>,
    r: Result<String, SignError>,
) -> bool {
    match r {
        Ok(s) => signature(secret, challenge) == Some(s@),
        Err(e) => e == SignError::InvalidSecretEncoding && signature(secret, challenge).is_none(),
    }
}

/// Calls `sha2::Sha256::digest` on the bytes. The contract claims that the
/// result is the SHA-256 digest of exactly those bytes.
#[verifier::external_body]
fn sha256_digest(data: &[u8]) -> (out: Vec<u8>)
    ensures
        out@ == sha256(data@),
{
    sha2::Sha256::digest(data).to_vec()
}

/// Keys `hmac::Hmac<sha2::Sha512>` with `new_from_slice`, feeds it `data` with
/// `update` and reads the tag with `finalize`. The contract claims that a key
/// of any length is accepted, that the result is the HMAC-SHA-512 tag of
/// `data` under `secret`, and that the tag is 64 bytes long.
#[verifier::external_body]
fn hmac(secret: &[u8], data: &[u8]) -> (out: Option<Vec<u8>>)
    ensures
        out is Some,
        out->Some_0@ == hmac_sha512(secret@, data@),
        out->Some_0@.len() == TAG_LEN,
{
    let mut signer = hmac::Hmac::<sha2::Sha512>::new_from_slice(secret).ok()?;
    signer.update(data);
    Some(signer.finalize().into_bytes().to_vec())
}

/// Calls `decode` of `base64::prelude::BASE64_STANDARD`. The contract claims
/// that the call succeeds exactly on valid standard base64 and then returns
/// the bytes that the text stands for.
#[verifier::external_body]
fn base64_decode(text: &str) -> (r: Result<Vec<u8>, base64::DecodeError>)
    ensures
        match r {
            Ok(bytes) => base64_decoded(text@) == Some(bytes@),
            Err(_) => base64_decoded(text@).is_none(),
        },
{
    base64::prelude::BASE64_STANDARD.decode(text)
}

/// Calls `encode` of `base64::prelude::BASE64_STANDARD`. The contract claims
/// that the result is the standard, padded base64 text of the bytes. The
/// encoder panics where the length of that text does not fit in `usize`: such
/// inputs are left out.
#[verifier::external_body]
fn base64_encode(data: &[u8]) -> (r: String)
    requires
        data@.len() / 3 * 4 + 4 <= usize::MAX,
    ensures
        r@ == base64_encoded(data@),
{
    base64::prelude::BASE64_STANDARD.encode(data)
}

/// Signs `challenge` with raw key bytes.
pub fn sign_with_key(key: &[u8], challenge: &str) -> (r: String)
    ensures
        r@ == signature_with_key(key@, challenge@),
{
    let challenge_hash = sha256_digest(challenge.as_bytes());
    let digest = hmac(key, challenge_hash.as_slice()).unwrap();
    base64_encode(digest.as_slice())
}

/// Signs `challenge` with the base64 secret `private_key`.
///
/// Fails with `InvalidSecretEncoding` exactly where the secret is not valid
/// base64; there is no other failure.
pub fn sign(private_key: &str, challenge: &str) -> (r: Result<String, SignError>)
    ensures
        sign_result(private_key@, challenge@, r),
{
    match base64_decode(private_key) {
        Ok(secret) => Ok(sign_with_key(secret.as_slice(), challenge)),
        Err(_) => Err(SignError::InvalidSecretEncoding),
    }
}

/// Signing is a function of the secret and the challenge: two results for
/// the same pair agree, in success and in the text.
pub proof fn sign_deterministic(
    secret: Seq<char>,
    challenge: Seq<char>,
    first: Result<String, SignError>,
    second: Result<String, SignError>,
)
    requires
        sign_result(secret, challenge, first),
        sign_result(secret, challenge, second),
    ensures
        first is Ok <==> second is Ok,
        first is Ok ==> first->Ok_0@ == second->Ok_0@,
        first is Err ==> first->Err_0 == second->Err_0,
{
}

} // verus!
