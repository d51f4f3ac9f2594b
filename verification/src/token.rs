//! The shape of a token. A token of three parts divided by dots carries its
//! claims in the middle part: base64 in the URL alphabet of a JSON object
//! whose member `exp` is the time, in seconds since 1970, from which the
//! token no longer holds. Any other token is opaque and never expires.
use vstd::prelude::*;
use crate::error::AuthError;
use crate::json::{json_document, json_member, json_number, member, parse_json};
use crate::text::{chars_of, split, split_chars, string_of, views};

verus! {

/// `base64::DecodeError`, why the decoder refuses a text.
#[verifier::external_type_specification]
#[verifier::external_body]
pub struct ExDecodeError(base64::DecodeError);

/// The bytes that `base64::decode_config` with `base64::URL_SAFE` reads from
/// `text`, if it accepts `text`.
pub uninterp spec fn base64_url_decoded(text: Seq<char>) -> Option<Seq<u8>>;

/// `base64::decode_config` with the configuration `base64::URL_SAFE`: the
/// bytes named `base64_url_decoded`, and an error exactly where the decoder
/// refuses the text. The outside function panics on a text within three
/// bytes of the largest `usize`, which no text in memory is.
#[verifier::external_body]
fn decode_base64_url(text: &str) -> (bytes: Result<Vec<u8>, base64::DecodeError>)
    ensures
        match bytes {
            Ok(b) => base64_url_decoded(text@) == Some(b@),
            Err(_) => base64_url_decoded(text@) is None,
        },
{
    base64::decode_config(text, base64::URL_SAFE)
}

/// The middle part of a token of exactly three parts.
pub open spec fn claims_segment(token: Seq<char>) -> Option<Seq<char>> {
    let parts = split(token, '.');
    if parts.len() == 3 {
        Some(parts[1])
    } else {
        None
    }
}

/// The expiry that the claims `bytes` state: the member `exp` of the JSON
/// object, where it is an unsigned integer.
pub open spec fn expiry_in_claims(bytes: Seq<u8>) -> Option<u64> {
    match json_document(bytes) {
        Some(doc) => match json_member(doc, "exp"@) {
            Some(exp) => json_number(exp),
            None => None,
        },
        None => None,
    }
}

/// The expiry of `token`: that of its claims, where it has three parts, the
/// middle one decodes, and the claims state one. Else the token has none.
pub open spec fn token_expiry(token: Seq<char>) -> Option<u64> {
    match claims_segment(token) {
        Some(segment) => match base64_url_decoded(segment) {
            Some(bytes) => expiry_in_claims(bytes),
            None => None,
        },
        None => None,
    }
}

/// What the claims of `token` tell of its expiry. A token that is not of
/// three parts has no claims and no expiry. One of three parts has to state
/// its expiry: where the middle part does not decode, or holds no JSON
/// object with an unsigned integer `exp`, the claims are malformed.
pub open spec fn claims_read(token: Seq<char>) -> Result<Option<u64>, AuthError> {
    match claims_segment(token) {
        None => Ok(None),
        Some(_) => match token_expiry(token) {
            Some(expiry) => Ok(Some(expiry)),
            None => Err(AuthError::MalformedClaims),
        },
    }
}

/// The middle part of `token`, if `token` has exactly three parts divided
/// by dots.
pub fn middle_segment(token: &str) -> (segment: Option<String>)
    ensures
        match segment {
            Some(s) => claims_segment(token@) == Some(s@),
            None => claims_segment(token@) is None,
        },
{
    let text = chars_of(token);
    let parts = split_chars(&text, '.');
    if parts.len() == 3 {
        assert(views(parts@)[1] == parts@[1]@);
        Some(string_of(&parts[1]))
    } else {
        None
    }
}

/// The expiry that the claims `bytes` state, if they state one.
pub fn claims_expiry(bytes: &[u8]) -> (expiry: Option<u64>)
    ensures
        expiry == expiry_in_claims(bytes@),
{
    match parse_json(bytes) {
        Ok(doc) => match member(&doc, "exp") {
            Some(exp) => exp.as_u64(),
            None => None,
        },
        Err(_) => None,
    }
}

/// Reads the expiry from the claims of `token`. Fails with
/// `MalformedClaims` where `token` has three parts and its claims state no
/// expiry that can be read.
pub fn read_expiry(token: &str) -> (expiry: Result<Option<u64>, AuthError>)
    ensures
        expiry == claims_read(token@),
{
    match middle_segment(token) {
        None => Ok(None),
        Some(segment) => {
            let stated = match decode_base64_url(segment.as_str()) {
                Ok(bytes) => claims_expiry(bytes.as_slice()),
                Err(_) => None,
            };
            match stated {
                Some(expiry) => Ok(Some(expiry)),
                None => Err(AuthError::MalformedClaims),
            }
        },
    }
}

/// The expiry of `token`, if it states one. A token that is not of three
/// parts has none, and malformed claims are let pass: such a token has none
/// either.
pub fn expiry_of(token: &str) -> (expiry: Option<u64>)
    ensures
        expiry == token_expiry(token@),
{
    match read_expiry(token) {
        Ok(expiry) => expiry,
        Err(_) => None,
    }
}

} // verus!
