use artisan_cli::auth::{
    discover, username, whoami, UserRole, Whoami,
    login, login_request, login_url, refresh, refresh_request, refresh_url, Reply,
};
use artisan_cli::error::AuthError;
use artisan_cli::get_base_url;

fn answer(success: bool, body: &str) -> Reply {
    Reply::Answer {
        success,
        body: body.as_bytes().to_vec(),
    }
}

#[test]
fn base_url_ends_with_a_slash() {
    assert_eq!(get_base_url(), "https://api.artisanhosting.net/v1/");
}

#[test]
fn endpoints_stand_under_the_base_url() {
    assert_eq!(login_url(), "https://api.artisanhosting.net/v1/auth/login");
    assert_eq!(
        refresh_url(),
        "https://api.artisanhosting.net/v1/auth/refresh"
    );
}

#[test]
fn login_request_carries_the_credentials() {
    assert_eq!(
        login_request("a@example.com", "pw"),
        "{\"identifier\":\"a@example.com\",\"secret\":\"pw\"}"
    );
}

#[test]
fn refresh_request_carries_both_tokens() {
    assert_eq!(
        refresh_request("old", "ref1"),
        "{\"expired_token\":\"old\",\"refresh_token\":\"ref1\"}"
    );
}

#[test]
fn requests_escape_what_json_escapes() {
    assert_eq!(
        login_request("a\"b", "c\\d"),
        "{\"identifier\":\"a\\\"b\",\"secret\":\"c\\\\d\"}"
    );
}

#[test]
fn login_reads_both_tokens() {
    let pair = login(&answer(true, "{\"auth\":\"tok1\",\"refresh\":\"ref1\"}")).unwrap();
    assert_eq!(pair.access, "tok1");
    assert_eq!(pair.refresh, "ref1");
}

#[test]
fn login_without_an_answer_is_a_network_error() {
    assert!(matches!(
        login(&Reply::Unreachable),
        Err(AuthError::NetworkError)
    ));
}

#[test]
fn login_that_the_server_declines_is_rejected() {
    assert!(matches!(
        login(&answer(false, "{\"auth\":\"tok1\",\"refresh\":\"ref1\"}")),
        Err(AuthError::AuthRejected)
    ));
    assert!(matches!(
        login(&answer(false, "no such user")),
        Err(AuthError::AuthRejected)
    ));
}

#[test]
fn login_answer_without_either_token_is_malformed() {
    assert!(matches!(
        login(&answer(true, "{\"auth\":\"tok1\"}")),
        Err(AuthError::MalformedResponse)
    ));
    assert!(matches!(
        login(&answer(true, "{\"refresh\":\"ref1\"}")),
        Err(AuthError::MalformedResponse)
    ));
    assert!(matches!(
        login(&answer(true, "{\"auth\":1,\"refresh\":\"ref1\"}")),
        Err(AuthError::MalformedResponse)
    ));
    assert!(matches!(
        login(&answer(true, "<html>")),
        Err(AuthError::MalformedResponse)
    ));
    assert!(matches!(
        login(&answer(true, "")),
        Err(AuthError::MalformedResponse)
    ));
}

#[test]
fn refresh_reads_the_access_token() {
    assert_eq!(
        refresh(&answer(true, "{\"auth\":\"tok2\"}")).unwrap(),
        "tok2"
    );
    assert_eq!(
        refresh(&answer(true, "{\"auth\":\"tok2\",\"refresh\":\"other\"}")).unwrap(),
        "tok2"
    );
}

#[test]
fn refresh_fails_as_login_does() {
    assert!(matches!(
        refresh(&Reply::Unreachable),
        Err(AuthError::NetworkError)
    ));
    assert!(matches!(
        refresh(&answer(false, "{\"auth\":\"tok2\"}")),
        Err(AuthError::AuthRejected)
    ));
    assert!(matches!(
        refresh(&answer(true, "{\"refresh\":\"ref1\"}")),
        Err(AuthError::MalformedResponse)
    ));
    assert!(matches!(
        refresh(&answer(true, "{")),
        Err(AuthError::MalformedResponse)
    ));
}

#[test]
fn every_error_has_its_message() {
    assert_eq!(
        AuthError::MissingToken.message(),
        "Token not found, please log in."
    );
    assert_eq!(AuthError::AuthRejected.message(), "Login failed");
    assert_eq!(
        AuthError::CredentialsNotFound.message(),
        "Credentials file not found"
    );
    assert_eq!(
        AuthError::MalformedResponse.message(),
        "Failed to parse both refresh and auth token"
    );
    assert_eq!(AuthError::Fatal.message(), "Failed to refresh token.");
    assert!(!AuthError::DecryptError.message().is_empty());
    assert!(!AuthError::EncryptError.message().is_empty());
    assert!(!AuthError::NetworkError.message().is_empty());
    assert!(!AuthError::IoError.message().is_empty());
    assert!(!AuthError::MalformedClaims.message().is_empty());
}

#[test]
fn discover_tells_whether_the_server_is_there() {
    assert_eq!(discover(&answer(true, "")), Ok(true));
    assert_eq!(discover(&answer(false, "down")), Ok(false));
    assert_eq!(discover(&Reply::Unreachable), Err(AuthError::NetworkError));
}

#[test]
fn username_is_the_user_id_or_unknown() {
    assert_eq!(
        username(&answer(true, "{\"user_id\":\"u-17\"}")),
        Ok("u-17".to_string())
    );
    assert_eq!(username(&answer(true, "{}")), Ok("Unknown".to_string()));
    assert_eq!(
        username(&answer(true, "{\"user_id\":17}")),
        Ok("Unknown".to_string())
    );
    assert_eq!(
        username(&answer(false, "{\"user_id\":\"u-17\"}")),
        Ok("Unknown".to_string())
    );
    assert_eq!(
        username(&answer(true, "oops")),
        Err(AuthError::MalformedResponse)
    );
    assert_eq!(
        username(&Reply::Unreachable),
        Err(AuthError::NetworkError)
    );
}

#[test]
fn whoami_greets_the_super_user() {
    let report = whoami(
        "root".to_string(),
        &answer(true, "{\"you\":{\"roles\":\"SUPER\",\"expires\":600}}"),
    );
    assert!(matches!(
        report,
        Ok(Whoami::Greeting { username, role: UserRole::Super }) if username == "root"
    ));
}

#[test]
fn whoami_tells_a_user_without_a_role() {
    for body in [
        "{\"you\":{\"roles\":\"none\"}}",
        "{\"you\":{\"roles\":\"emperor\"}}",
        "{\"you\":{}}",
        "{\"you\":{\"roles\":3}}",
        "{\"you\":\"me\"}",
    ] {
        assert!(matches!(
            whoami("u".to_string(), &answer(true, body)),
            Ok(Whoami::NoPower {
                role: UserRole::Unassigned
            })
        ));
    }
}

#[test]
fn whoami_tells_role_and_expiry_of_a_member() {
    let report = whoami(
        "u".to_string(),
        &answer(true, "{\"you\":{\"roles\":\"admin\",\"expires\":42}}"),
    );
    assert!(matches!(
        report,
        Ok(Whoami::Member { username, role: UserRole::Admin, expires: 42 }) if username == "u"
    ));
    let report = whoami(
        "u".to_string(),
        &answer(true, "{\"you\":{\"roles\":\"viewer\"}}"),
    );
    assert!(matches!(
        report,
        Ok(Whoami::Member {
            role: UserRole::Viewer,
            expires: 0,
            ..
        })
    ));
}

#[test]
fn whoami_without_a_word_on_the_user() {
    assert!(matches!(
        whoami("u".to_string(), &answer(true, "{}")),
        Ok(Whoami::Silent)
    ));
    assert!(matches!(
        whoami("u".to_string(), &answer(false, "no")),
        Ok(Whoami::Declined)
    ));
    assert!(matches!(
        whoami("u".to_string(), &answer(true, "no")),
        Err(AuthError::MalformedResponse)
    ));
    assert!(matches!(
        whoami("u".to_string(), &Reply::Unreachable),
        Err(AuthError::NetworkError)
    ));
}

#[test]
fn roles_have_the_names_of_the_server() {
    for (name, role) in [
        ("admin", UserRole::Admin),
        ("controller", UserRole::Controller),
        ("viewer", UserRole::Viewer),
        ("SUPER", UserRole::Super),
        ("audit", UserRole::Audit),
        ("none", UserRole::Unassigned),
    ] {
        assert_eq!(UserRole::named(name), role);
        assert_eq!(role.name(), name);
    }
    assert_eq!(UserRole::named("super"), UserRole::Unassigned);
    assert_eq!(UserRole::named(""), UserRole::Unassigned);
}
