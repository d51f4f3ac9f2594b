//! The credential store: the identifier and the secret of the last
//! successful login, kept encrypted so that the session can be renewed when
//! a refresh fails.
//!
//! What is stored is the encrypted form of the JSON object
//! `{"identifier": .., "secret": ..}`. Anything else found in its place is an
//! error, never an empty pair of credentials.
use vstd::prelude::*;
use vstd::utf8::encode_utf8;
use crate::error::AuthError;
use crate::json::{json_pair, member, pair_text, parse_json, text_string_member};

verus! {

/// What a login needs.
pub struct Credentials {
    pub identifier: String,
    pub secret: String,
}

impl View for Credentials {
    type V = (Seq<char>, Seq<char>);

    /// The identifier, then the secret.
    open spec fn view(&self) -> (Seq<char>, Seq<char>) {
        (self.identifier@, self.secret@)
    }
}

/// `ErrorArrayItem` of `dusa_collection_utils`, the error of the encryption
/// functions.
#[verifier::external_type_specification]
#[verifier::external_body]
pub struct ExErrorArrayItem(artisan_middleware::dusa_collection_utils::core::errors::ErrorArrayItem);

/// The bytes that `artisan_middleware::encryption::simple_decrypt` recovers
/// from `stored`, if it recovers any.
pub uninterp spec fn simple_decrypted(stored: Seq<u8>) -> Option<Seq<u8>>;

/// `artisan_middleware::encryption::simple_encrypt`, with its result as a
/// `String`. The key and the nonce are drawn at random, so two calls on the
/// same bytes differ, and nothing is said of when it succeeds. What comes
/// out is the hexadecimal text of the key, the nonce and the ciphertext;
/// `simple_decrypt` takes key and nonce from that text and decrypts with
/// them, so it recovers the bytes. That is what the contract claims.
#[verifier::external_body]
fn encrypt(plain: &[u8]) -> (stored: Result<
    String,
    artisan_middleware::dusa_collection_utils::core::errors::ErrorArrayItem,
>)
    ensures
        stored matches Ok(text) ==> simple_decrypted(encode_utf8(text@)) == Some(plain@),
{
    artisan_middleware::encryption::simple_encrypt(plain).map(|text| text.to_string())
}

/// `artisan_middleware::encryption::simple_decrypt`: the bytes named
/// `simple_decrypted`, and an error exactly where it recovers none.
#[verifier::external_body]
fn decrypt(stored: &[u8]) -> (plain: Result<
    Vec<u8>,
    artisan_middleware::dusa_collection_utils::core::errors::ErrorArrayItem,
>)
    ensures
        match plain {
            Ok(bytes) => simple_decrypted(stored@) == Some(bytes@),
            Err(_) => simple_decrypted(stored@) is None,
        },
{
    artisan_middleware::encryption::simple_decrypt(stored)
}

/// The text that is encrypted for `identifier` and `secret`.
pub open spec fn credentials_json(identifier: Seq<char>, secret: Seq<char>) -> Seq<char> {
    json_pair("identifier"@, identifier, "secret"@, secret)
}

/// The credentials that the decrypted bytes `plain` hold: the strings
/// `identifier` and `secret` of a JSON object. Without both, the bytes are
/// no credentials.
pub open spec fn credentials_in(plain: Seq<u8>) -> Result<(Seq<char>, Seq<char>), AuthError> {
    match (text_string_member(plain, "identifier"@), text_string_member(plain, "secret"@)) {
        (Some(identifier), Some(secret)) => Ok((identifier, secret)),
        _ => Err(AuthError::DecryptError),
    }
}

/// What loading finds in `stored`, the content of the credential file, or
/// nothing where the file does not exist.
pub open spec fn loaded(stored: Option<Seq<char>>) -> Result<(Seq<char>, Seq<char>), AuthError> {
    match stored {
        None => Err(AuthError::CredentialsNotFound),
        Some(text) => match simple_decrypted(encode_utf8(text)) {
            Some(plain) => credentials_in(plain),
            None => Err(AuthError::DecryptError),
        },
    }
}

/// `found` is the outcome `expected`.
pub open spec fn same_outcome(
    found: Result<Credentials, AuthError>,
    expected: Result<(Seq<char>, Seq<char>), AuthError>,
) -> bool {
    match found {
        Ok(c) => expected == Ok::<(Seq<char>, Seq<char>), AuthError>(c@),
        Err(e) => expected == Err::<(Seq<char>, Seq<char>), AuthError>(e),
    }
}

/// The JSON text of the credentials, as it is before encryption.
pub fn credentials_text(identifier: &str, secret: &str) -> (text: String)
    ensures
        text@ == credentials_json(identifier@, secret@),
        credentials_in(encode_utf8(text@)) == Ok::<(Seq<char>, Seq<char>), AuthError>(
            (identifier@, secret@),
        ),
{
    proof {
        reveal_strlit("identifier");
        reveal_strlit("secret");
        assert("identifier"@.len() != "secret"@.len());
    }
    pair_text("identifier", identifier, "secret", secret)
}

/// The credentials that the decrypted bytes `plain` hold.
pub fn read_credentials(plain: &[u8]) -> (found: Result<Credentials, AuthError>)
    ensures
        same_outcome(found, credentials_in(plain@)),
{
    let doc = match parse_json(plain) {
        Ok(doc) => doc,
        Err(_) => {
            return Err(AuthError::DecryptError);
        },
    };
    let identifier = match member(&doc, "identifier") {
        Some(m) => m.as_str(),
        None => None,
    };
    let secret = match member(&doc, "secret") {
        Some(m) => m.as_str(),
        None => None,
    };
    match (identifier, secret) {
        (Some(i), Some(s)) => Ok(Credentials { identifier: i.to_owned(), secret: s.to_owned() }),
        _ => Err(AuthError::DecryptError),
    }
}

/// Encrypts the credentials for the credential file. The result is the new
/// content of the file: loading it gives the same identifier and secret
/// back. The one failure is that of the encryption.
pub fn save_credentials(identifier: &str, secret: &str) -> (stored: Result<String, AuthError>)
    ensures
        match stored {
            Ok(text) => {
                &&& simple_decrypted(encode_utf8(text@)) == Some(
                    encode_utf8(credentials_json(identifier@, secret@)),
                )
                &&& loaded(Some(text@)) == Ok::<(Seq<char>, Seq<char>), AuthError>(
                    (identifier@, secret@),
                )
            },
            Err(e) => e == AuthError::EncryptError,
        },
{
    let text = credentials_text(identifier, secret);
    match encrypt(text.as_str().as_bytes()) {
        Ok(stored) => Ok(stored),
        Err(_) => Err(AuthError::EncryptError),
    }
}

/// Reads the credentials from `stored`, the content of the credential file,
/// or nothing where the file does not exist. Fails with
/// `CredentialsNotFound` without a file, and with `DecryptError` where the
/// content cannot be decrypted or is not a pair of credentials.
pub fn load_credentials(stored: Option<&str>) -> (found: Result<Credentials, AuthError>)
    ensures
        same_outcome(
            found,
            loaded(
                match stored {
                    Some(text) => Some(text@),
                    None => None,
                },
            ),
        ),
{
    match stored {
        None => Err(AuthError::CredentialsNotFound),
        Some(text) => match decrypt(text.as_bytes()) {
            Ok(plain) => read_credentials(plain.as_slice()),
            Err(_) => Err(AuthError::DecryptError),
        },
    }
}

} // verus!
