//! The two exchanges with the server that yield tokens: a login with the
//! credentials, and a refresh with the token pair. The requests are sent
//! elsewhere; here are their bodies and the reading of the answers.
use vstd::prelude::*;
use vstd::string::StringExecFns;
use crate::error::AuthError;
use crate::get_base_url;
use crate::json::{
    json_document, json_member, json_number, json_pair, member, member_string, pair_text,
    parse_json, string_member, text_string_member,
};

verus! {

/// An access token and the refresh token that renews it.
pub struct TokenPair {
    pub access: String,
    pub refresh: String,
}

impl View for TokenPair {
    type V = (Seq<char>, Seq<char>);

    /// The access token, then the refresh token.
    open spec fn view(&self) -> (Seq<char>, Seq<char>) {
        (self.access@, self.refresh@)
    }
}

/// What came of a request.
pub enum Reply {
    /// The request did not reach the server, or no answer came back.
    Unreachable,
    /// The server answered: with a status of success or not, and a body.
    Answer { success: bool, body: Vec<u8> },
}

/// The body of a login request.
pub open spec fn login_body(identifier: Seq<char>, secret: Seq<char>) -> Seq<char> {
    json_pair("identifier"@, identifier, "secret"@, secret)
}

/// The body of a refresh request.
pub open spec fn refresh_body(expired_token: Seq<char>, refresh_token: Seq<char>) -> Seq<char> {
    json_pair("expired_token"@, expired_token, "refresh_token"@, refresh_token)
}

/// What a login yields for `reply`: the pair of tokens `auth` and `refresh`
/// of a successful answer.
pub open spec fn login_outcome(reply: Reply) -> Result<(Seq<char>, Seq<char>), AuthError> {
    match reply {
        Reply::Unreachable => Err(AuthError::NetworkError),
        Reply::Answer { success, body } => if !success {
            Err(AuthError::AuthRejected)
        } else {
            match (text_string_member(body@, "auth"@), text_string_member(body@, "refresh"@)) {
                (Some(access), Some(refresh)) => Ok((access, refresh)),
                _ => Err(AuthError::MalformedResponse),
            }
        },
    }
}

/// What a refresh yields for `reply`: the token `auth` of a successful
/// answer.
pub open spec fn refresh_outcome(reply: Reply) -> Result<Seq<char>, AuthError> {
    match reply {
        Reply::Unreachable => Err(AuthError::NetworkError),
        Reply::Answer { success, body } => if !success {
            Err(AuthError::AuthRejected)
        } else {
            match text_string_member(body@, "auth"@) {
                Some(access) => Ok(access),
                None => Err(AuthError::MalformedResponse),
            }
        },
    }
}

/// The address of the login endpoint.
pub fn login_url() -> (url: String)
    ensures
        url@ == "https://api.artisanhosting.net/v1/"@ + "auth/login"@,
{
    let mut url = String::from_str(get_base_url());
    url.append("auth/login");
    url
}

/// The address of the refresh endpoint.
pub fn refresh_url() -> (url: String)
    ensures
        url@ == "https://api.artisanhosting.net/v1/"@ + "auth/refresh"@,
{
    let mut url = String::from_str(get_base_url());
    url.append("auth/refresh");
    url
}

/// The body of the request that logs in with `identifier` and `secret`.
pub fn login_request(identifier: &str, secret: &str) -> (body: String)
    ensures
        body@ == login_body(identifier@, secret@),
{
    pair_text("identifier", identifier, "secret", secret)
}

/// The body of the request that renews `expired_token` with
/// `refresh_token`.
pub fn refresh_request(expired_token: &str, refresh_token: &str) -> (body: String)
    ensures
        body@ == refresh_body(expired_token@, refresh_token@),
{
    pair_text("expired_token", expired_token, "refresh_token", refresh_token)
}

/// Reads the answer to a login. Fails with `NetworkError` where none came,
/// with `AuthRejected` where the server declined, and with
/// `MalformedResponse` where a successful answer lacks either token.
pub fn login(reply: &Reply) -> (outcome: Result<TokenPair, AuthError>)
    ensures
        match outcome {
            Ok(pair) => login_outcome(*reply) == Ok::<(Seq<char>, Seq<char>), AuthError>(pair@),
            Err(e) => login_outcome(*reply) == Err::<(Seq<char>, Seq<char>), AuthError>(e),
        },
{
    match reply {
        Reply::Unreachable => Err(AuthError::NetworkError),
        Reply::Answer { success, body } => {
            if !*success {
                return Err(AuthError::AuthRejected);
            }
            let doc = match parse_json(body.as_slice()) {
                Ok(doc) => doc,
                Err(_) => {
                    return Err(AuthError::MalformedResponse);
                },
            };
            match (string_member(&doc, "auth"), string_member(&doc, "refresh")) {
                (Some(access), Some(refresh)) => Ok(TokenPair { access, refresh }),
                _ => Err(AuthError::MalformedResponse),
            }
        },
    }
}

/// Reads the answer to a refresh. Fails as `login` does; the one token it
/// asks of a successful answer is `auth`.
pub fn refresh(reply: &Reply) -> (outcome: Result<String, AuthError>)
    ensures
        match outcome {
            Ok(access) => refresh_outcome(*reply) == Ok::<Seq<char>, AuthError>(access@),
            Err(e) => refresh_outcome(*reply) == Err::<Seq<char>, AuthError>(e),
        },
{
    match reply {
        Reply::Unreachable => Err(AuthError::NetworkError),
        Reply::Answer { success, body } => {
            if !*success {
                return Err(AuthError::AuthRejected);
            }
            let doc = match parse_json(body.as_slice()) {
                Ok(doc) => doc,
                Err(_) => {
                    return Err(AuthError::MalformedResponse);
                },
            };
            match string_member(&doc, "auth") {
                Some(access) => Ok(access),
                None => Err(AuthError::MalformedResponse),
            }
        },
    }
}

/// The role of a user, as `artisan_middleware::api::roles::Role` has it.
#[derive(Clone, Copy, Debug, PartialEq, Eq, Structural)]
pub enum UserRole {
    Super,
    Admin,
    Controller,
    Viewer,
    Audit,
    Unassigned,
}

/// What the server tells of the user.
pub enum Whoami {
    /// The user has every right; such a session lasts ten minutes.
    Greeting { username: String, role: UserRole },
    /// The user has no role.
    NoPower { role: UserRole },
    /// The user has the role `role`, and the token expires in `expires`
    /// seconds.
    Member { username: String, role: UserRole, expires: u64 },
    /// The server answered without a word on the user.
    Silent,
    /// The server declined to tell.
    Declined,
}

/// The role that the server calls `name`. An unknown name is no role.
pub open spec fn role_named(name: Seq<char>) -> UserRole {
    if name == "admin"@ {
        UserRole::Admin
    } else if name == "controller"@ {
        UserRole::Controller
    } else if name == "viewer"@ {
        UserRole::Viewer
    } else if name == "SUPER"@ {
        UserRole::Super
    } else if name == "audit"@ {
        UserRole::Audit
    } else {
        UserRole::Unassigned
    }
}

/// The name that the server has for `role`.
pub open spec fn name_of_role(role: UserRole) -> Seq<char> {
    match role {
        UserRole::Admin => "admin"@,
        UserRole::Controller => "controller"@,
        UserRole::Viewer => "viewer"@,
        UserRole::Super => "SUPER"@,
        UserRole::Audit => "audit"@,
        UserRole::Unassigned => "none"@,
    }
}

/// `artisan_middleware::api::roles::Role::from_str`: the role of that name,
/// and no role for any other text.
#[verifier::external_body]
fn role_from_str(name: &str) -> (role: UserRole)
    ensures
        role == role_named(name@),
{
    match artisan_middleware::api::roles::Role::from_str(name) {
        artisan_middleware::api::roles::Role::Super => UserRole::Super,
        artisan_middleware::api::roles::Role::Admin => UserRole::Admin,
        artisan_middleware::api::roles::Role::Controller => UserRole::Controller,
        artisan_middleware::api::roles::Role::Viewer => UserRole::Viewer,
        artisan_middleware::api::roles::Role::Audit => UserRole::Audit,
        artisan_middleware::api::roles::Role::None => UserRole::Unassigned,
    }
}

/// `artisan_middleware::api::roles::Role::to_str`: the name of the role.
#[verifier::external_body]
fn role_to_str(role: UserRole) -> (name: &'static str)
    ensures
        name@ == name_of_role(role),
{
    match role {
        UserRole::Super => artisan_middleware::api::roles::Role::Super,
        UserRole::Admin => artisan_middleware::api::roles::Role::Admin,
        UserRole::Controller => artisan_middleware::api::roles::Role::Controller,
        UserRole::Viewer => artisan_middleware::api::roles::Role::Viewer,
        UserRole::Audit => artisan_middleware::api::roles::Role::Audit,
        UserRole::Unassigned => artisan_middleware::api::roles::Role::None,
    }.to_str()
}

impl UserRole {
    /// The role that the server calls `name`.
    pub fn named(name: &str) -> (role: UserRole)
        ensures
            role == role_named(name@),
    {
        role_from_str(name)
    }

    /// The name that the server has for the role.
    pub fn name(&self) -> (name: &'static str)
        ensures
            name@ == name_of_role(*self),
    {
        role_to_str(*self)
    }
}

/// Whether the server is there for `reply`: it is where it answers with
/// success.
pub open spec fn discover_outcome(reply: Reply) -> Result<bool, AuthError> {
    match reply {
        Reply::Unreachable => Err(AuthError::NetworkError),
        Reply::Answer { success, .. } => Ok(success),
    }
}

/// The name of the account in `reply`, the answer to the question for the
/// account: the string `user_id` of a successful answer, and `Unknown`
/// where the answer has none or is no success.
pub open spec fn username_outcome(reply: Reply) -> Result<Seq<char>, AuthError> {
    match reply {
        Reply::Unreachable => Err(AuthError::NetworkError),
        Reply::Answer { success, body } => if !success {
            Ok("Unknown"@)
        } else {
            match json_document(body@) {
                None => Err(AuthError::MalformedResponse),
                Some(_) => match text_string_member(body@, "user_id"@) {
                    Some(name) => Ok(name),
                    None => Ok("Unknown"@),
                },
            }
        },
    }
}

/// The role that the member `you` of an answer states: that of its string
/// `roles`, and none without one.
pub open spec fn role_in(you: serde_json::Value) -> UserRole {
    match member_string(you, "roles"@) {
        Some(name) => role_named(name),
        None => role_named("none"@),
    }
}

/// The seconds until expiry that the member `you` of an answer states: its
/// number `expires`, and 0 without one.
pub open spec fn expires_in(you: serde_json::Value) -> u64 {
    match json_member(you, "expires"@) {
        Some(expires) => match json_number(expires) {
            Some(seconds) => seconds,
            None => 0,
        },
        None => 0,
    }
}

/// `report` says of the user `username` what the answer `reply` tells.
pub open spec fn tells(report: Result<Whoami, AuthError>, username: Seq<char>, reply: Reply)
    -> bool {
    match reply {
        Reply::Unreachable => report matches Err(AuthError::NetworkError),
        Reply::Answer { success, body } => if !success {
            report matches Ok(Whoami::Declined)
        } else {
            match json_document(body@) {
                None => report matches Err(AuthError::MalformedResponse),
                Some(doc) => match json_member(doc, "you"@) {
                    None => report matches Ok(Whoami::Silent),
                    Some(you) => match role_in(you) {
                        UserRole::Super => report matches Ok(Whoami::Greeting { username: u, role })
                            && u@ == username && role == UserRole::Super,
                        UserRole::Unassigned => report matches Ok(Whoami::NoPower { role }) && role
                            == UserRole::Unassigned,
                        other => report matches Ok(Whoami::Member { username: u, role, expires })
                            && u@ == username && role == other && expires == expires_in(you),
                    },
                },
            }
        },
    }
}

/// Whether the server is there: it is where it answers with success. Fails
/// with `NetworkError` where no answer came.
pub fn discover(reply: &Reply) -> (found: Result<bool, AuthError>)
    ensures
        found == discover_outcome(*reply),
{
    match reply {
        Reply::Unreachable => Err(AuthError::NetworkError),
        Reply::Answer { success, body } => Ok(*success),
    }
}

/// The name of the account in the answer to the question for the account.
/// Fails with `NetworkError` where no answer came and with
/// `MalformedResponse` where a successful answer is no JSON.
pub fn username(reply: &Reply) -> (name: Result<String, AuthError>)
    ensures
        match name {
            Ok(n) => username_outcome(*reply) == Ok::<Seq<char>, AuthError>(n@),
            Err(e) => username_outcome(*reply) == Err::<Seq<char>, AuthError>(e),
        },
{
    match reply {
        Reply::Unreachable => Err(AuthError::NetworkError),
        Reply::Answer { success, body } => {
            if !*success {
                return Ok(String::from_str("Unknown"));
            }
            match parse_json(body.as_slice()) {
                Ok(doc) => match string_member(&doc, "user_id") {
                    Some(name) => Ok(name),
                    None => Ok(String::from_str("Unknown")),
                },
                Err(_) => Err(AuthError::MalformedResponse),
            }
        },
    }
}

/// What the server tells of the user `username` in the answer to the
/// question for the role. Fails with `NetworkError` where no answer came
/// and with `MalformedResponse` where a successful answer is no JSON.
pub fn whoami(username: String, reply: &Reply) -> (report: Result<Whoami, AuthError>)
    ensures
        tells(report, username@, *reply),
{
    match reply {
        Reply::Unreachable => Err(AuthError::NetworkError),
        Reply::Answer { success, body } => {
            if !*success {
                return Ok(Whoami::Declined);
            }
            let doc = match parse_json(body.as_slice()) {
                Ok(doc) => doc,
                Err(_) => {
                    return Err(AuthError::MalformedResponse);
                },
            };
            let you = match member(&doc, "you") {
                Some(you) => you,
                None => {
                    return Ok(Whoami::Silent);
                },
            };
            let role = match string_member(you, "roles") {
                Some(name) => UserRole::named(name.as_str()),
                None => UserRole::named("none"),
            };
            let expires = match member(you, "expires") {
                Some(number) => match number.as_u64() {
                    Some(seconds) => seconds,
                    None => 0,
                },
                None => 0,
            };
            match role {
                UserRole::Super => Ok(Whoami::Greeting { username, role }),
                UserRole::Unassigned => Ok(Whoami::NoPower { role }),
                _ => Ok(Whoami::Member { username, role, expires }),
            }
        },
    }
}

} // verus!
