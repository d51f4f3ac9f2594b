//! Why a session could not be established.
use vstd::prelude::*;

verus! {

/// The failures of the session subsystem.
#[derive(Clone, Copy, Debug, PartialEq, Eq, Structural)]
pub enum AuthError {
    /// No access token is known: the user has to log in.
    MissingToken,
    /// The claims of a token could not be read. Never returned by the token
    /// check, which lets such a token pass.
    MalformedClaims,
    /// The stored credentials cannot be decrypted, or what was decrypted is
    /// not a pair of credentials.
    DecryptError,
    /// The credentials could not be encrypted.
    EncryptError,
    /// No credentials are stored.
    CredentialsNotFound,
    /// The request did not reach the server, or its answer did not arrive.
    NetworkError,
    /// The server declined the login or the refresh.
    AuthRejected,
    /// The server accepted, and its answer lacks a token.
    MalformedResponse,
    /// The environment file or the credential file could not be read or
    /// written.
    IoError,
    /// The lifecycle was handed an event that answers nothing it asked for.
    Fatal,
}

impl AuthError {
    /// A sentence for the user.
    pub fn message(&self) -> (text: &'static str)
        ensures
            text@ == match *self {
                AuthError::MissingToken => "Token not found, please log in."@,
                AuthError::MalformedClaims => "The token's claims cannot be read."@,
                AuthError::DecryptError => "The stored credentials cannot be decrypted."@,
                AuthError::EncryptError => "The credentials could not be encrypted."@,
                AuthError::CredentialsNotFound => "Credentials file not found"@,
                AuthError::NetworkError => "The server could not be reached."@,
                AuthError::AuthRejected => "Login failed"@,
                AuthError::MalformedResponse => "Failed to parse both refresh and auth token"@,
                AuthError::IoError => "The configuration could not be read or written."@,
                AuthError::Fatal => "Failed to refresh token."@,
            },
    {
        match self {
            AuthError::MissingToken => "Token not found, please log in.",
            AuthError::MalformedClaims => "The token's claims cannot be read.",
            AuthError::DecryptError => "The stored credentials cannot be decrypted.",
            AuthError::EncryptError => "The credentials could not be encrypted.",
            AuthError::CredentialsNotFound => "Credentials file not found",
            AuthError::NetworkError => "The server could not be reached.",
            AuthError::AuthRejected => "Login failed",
            AuthError::MalformedResponse => "Failed to parse both refresh and auth token",
            AuthError::IoError => "The configuration could not be read or written.",
            AuthError::Fatal => "Failed to refresh token.",
        }
    }
}

} // verus!
