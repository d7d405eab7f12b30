//! HMAC-SHA256 signing of cookie values.
//!
//! A signed value is the base64 text of the MAC of the raw value, followed by
//! the raw value itself. The MAC of 32 bytes always takes 44 characters, so a
//! verifier splits a signed value after its first 44 bytes.
use async_session::base64;
use async_session::hmac::{Hmac, Mac, NewMac};
use async_session::sha2::Sha256;
use axum_extra::extract::cookie::Key;
use vstd::prelude::*;
use vstd::string::{StringExecFns, StringSliceAdditionalSpecFns};
use vstd::utf8::*;

verus! {

/// Length in characters of the base64 text of a SHA-256 MAC.
pub const BASE64_DIGEST_LEN: usize = 44;

/// Length in bytes of a SHA-256 MAC.
pub const DIGEST_LEN: usize = 32;

/// Least length of the secret that a signing key is made from.
pub const MIN_SECRET_LEN: usize = 64;

/// The HMAC-SHA256 tag of `msg` under `key`.
pub uninterp spec fn hmac_sha256_of(key: Seq<u8>, msg: Seq<u8>) -> Seq<u8>;

/// The standard, padded base64 text of `bytes`.
pub uninterp spec fn base64_of(bytes: Seq<u8>) -> Seq<char>;

/// The bytes that the standard, padded base64 text `text` decodes to, if any.
pub uninterp spec fn base64_decoded(text: Seq<char>) -> Option<Seq<u8>>;

#[verifier::external_type_specification]
#[verifier::external_body]
pub struct ExDecodeError(base64::DecodeError);

/// Relies on `cookie::Key::from` (via axum_extra): the key copies the first
/// 64 bytes of the secret, and `Key::signing` is the first 32 of them.
/// `Key::from` panics on a secret under 64 bytes.
#[verifier::external_body]
pub(crate) fn signing_key_from(secret: &[u8]) -> (r: Vec<u8>)
    requires
        secret@.len() >= MIN_SECRET_LEN,
    ensures
        r@ == secret@.subrange(0, DIGEST_LEN as int),
{
    Key::from(secret).signing().to_vec()
}

/// Relies on `Hmac::<Sha256>` (hmac, via async_session): `new_from_slice`
/// accepts a key of any length, and `finalize` yields the 32-byte tag.
#[verifier::external_body]
fn hmac_sha256(key: &[u8], msg: &[u8]) -> (r: Vec<u8>)
    ensures
        r@ == hmac_sha256_of(key@, msg@),
        r@.len() == DIGEST_LEN,
{
    let mut mac = Hmac::<Sha256>::new_from_slice(key).expect("hmac takes keys of any length");
    mac.update(msg);
    mac.finalize().into_bytes().to_vec()
}

/// Relies on `Mac::verify` (crypto-mac, via async_session): it compares the
/// computed tag with `tag` in constant time and succeeds exactly when they are
/// equal, lengths included.
#[verifier::external_body]
fn hmac_sha256_verify(key: &[u8], msg: &[u8], tag: &[u8]) -> (r: bool)
    ensures
        r == (tag@ == hmac_sha256_of(key@, msg@)),
{
    let mut mac = Hmac::<Sha256>::new_from_slice(key).expect("hmac takes keys of any length");
    mac.update(msg);
    mac.verify(tag).is_ok()
}

/// Relies on `base64::encode` (standard alphabet, padded): four ASCII
/// characters for every three bytes or part thereof, which `base64::decode`
/// turns back into the same bytes.
#[verifier::external_body]
fn base64_encode(bytes: &[u8]) -> (r: String)
    requires
        bytes@.len() <= 0xffff_ffff,
    ensures
        r@ == base64_of(bytes@),
        r@.len() == 4 * ((bytes@.len() + 2) / 3),
        is_ascii_chars(r@),
        base64_decoded(r@) == Some(bytes@),
{
    base64::encode(bytes)
}

/// Relies on `base64::decode` (standard alphabet, padded).
#[verifier::external_body]
fn base64_decode(text: &str) -> (r: Result<Vec<u8>, base64::DecodeError>)
    ensures
        match r {
            Ok(v) => base64_decoded(text@) == Some(v@),
            Err(_) => base64_decoded(text@) is None,
        },
{
    base64::decode(text)
}

/// Why a signed value was not accepted.
#[derive(Clone, Copy, Debug, PartialEq, Eq, Structural)]
pub enum SignatureError {
    /// The value is shorter than the base64 text of a MAC.
    TooShort,
    /// The leading 44 bytes are not base64 text.
    BadEncoding,
    /// The MAC does not match the rest of the value.
    SignatureInvalid,
}

/// The signed form of `raw` under `key`: the base64 MAC, then `raw`.
pub open spec fn signed_value(key: Seq<u8>, raw: Seq<char>) -> Seq<char> {
    base64_of(hmac_sha256_of(key, encode_utf8(raw))) + raw
}

/// What verifying the signed value `value` under `key` gives.
pub open spec fn verified_value(key: Seq<u8>, value: Seq<char>) -> Result<Seq<char>, SignatureError> {
    let b = encode_utf8(value);
    let n = BASE64_DIGEST_LEN as int;
    if b.len() < n {
        Err(SignatureError::TooShort)
    } else if !is_char_boundary(b, n) {
        Err(SignatureError::BadEncoding)
    } else {
        match base64_decoded(decode_utf8(b.subrange(0, n))) {
            None => Err(SignatureError::BadEncoding),
            Some(d) => if d == hmac_sha256_of(key, b.subrange(n, b.len() as int)) {
                Ok(decode_utf8(b.subrange(n, b.len() as int)))
            } else {
                Err(SignatureError::SignatureInvalid)
            },
        }
    }
}

proof fn lemma_encode_utf8_concat(a: Seq<char>, b: Seq<char>)
    ensures
        encode_utf8(a + b) == encode_utf8(a) + encode_utf8(b),
    decreases a.len(),
{
    if a.len() == 0 {
        assert(a + b =~= b);
        assert(encode_utf8(a) + encode_utf8(b) =~= encode_utf8(b));
    } else {
        assert((a + b).drop_first() =~= a.drop_first() + b);
        lemma_encode_utf8_concat(a.drop_first(), b);
        assert(encode_utf8(a + b) =~= encode_utf8(a) + encode_utf8(b));
    }
}

proof fn lemma_boundary_after_prefix(a: Seq<char>, b: Seq<char>)
    ensures
        is_char_boundary(encode_utf8(a + b), encode_utf8(a).len() as int),
    decreases a.len(),
{
    broadcast use group_utf8_lib;

    lemma_encode_utf8_concat(a, b);
    if a.len() == 0 {
    } else {
        let x = encode_utf8(a + b);
        encode_utf8_first_scalar(a + b);
        assert((a + b).drop_first() =~= a.drop_first() + b);
        lemma_encode_utf8_concat(a.drop_first(), b);
        assert(pop_first_scalar(x) =~= encode_utf8(a.drop_first() + b));
        lemma_boundary_after_prefix(a.drop_first(), b);
    }
}

/// A value shorter than the base64 text of a MAC is rejected as too short,
/// before any decoding.
pub proof fn lemma_short_value_rejected(key: Seq<u8>, value: Seq<char>)
    requires
        encode_utf8(value).len() < BASE64_DIGEST_LEN,
    ensures
        verified_value(key, value) == Err::<Seq<char>, SignatureError>(SignatureError::TooShort),
{
}

/// Signs `raw` under `key`; the result verifies back to `raw` under `key`.
pub fn sign(key: &[u8], raw: &str) -> (r: String)
    ensures
        r@ == signed_value(key@, raw@),
        verified_value(key@, r@) == Ok::<Seq<char>, SignatureError>(raw@),
{
    let mac = hmac_sha256(key, raw.as_bytes());
    let tag = base64_encode(mac.as_slice());
    let r = tag.concat(raw);
    proof {
        broadcast use group_utf8_lib;

        let b = encode_utf8(r@);
        lemma_encode_utf8_concat(tag@, raw@);
        lemma_boundary_after_prefix(tag@, raw@);
        assert(encode_utf8(tag@).len() == 44);
        assert(b.subrange(0, 44) =~= encode_utf8(tag@));
        assert(b.subrange(44, b.len() as int) =~= encode_utf8(raw@));
    }
    r
}

/// Verifies a value signed by [`sign`] and returns the raw value it carries.
pub fn verify(key: &[u8], value: &str) -> (r: Result<String, SignatureError>)
    ensures
        match r {
            Ok(s) => verified_value(key@, value@) == Ok::<Seq<char>, SignatureError>(s@),
            Err(e) => verified_value(key@, value@) == Err::<Seq<char>, SignatureError>(e),
        },
{
    if value.as_bytes().len() < BASE64_DIGEST_LEN {
        return Err(SignatureError::TooShort);
    }
    if !value.is_char_boundary(BASE64_DIGEST_LEN) {
        return Err(SignatureError::BadEncoding);
    }
    let (digest_text, raw) = value.split_at(BASE64_DIGEST_LEN);
    proof {
        broadcast use group_utf8_lib;

        assert(digest_text@ == decode_utf8(digest_text.spec_bytes()));
        assert(raw@ == decode_utf8(raw.spec_bytes()));
    }
    let digest = match base64_decode(digest_text) {
        Ok(d) => d,
        Err(_) => {
            return Err(SignatureError::BadEncoding);
        },
    };
    if hmac_sha256_verify(key, raw.as_bytes(), digest.as_slice()) {
        Ok(raw.to_owned())
    } else {
        Err(SignatureError::SignatureInvalid)
    }
}

} // verus!
