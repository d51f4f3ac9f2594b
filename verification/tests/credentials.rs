use artisan_cli::credentials::{
    credentials_text, load_credentials, read_credentials, save_credentials,
};
use artisan_cli::error::AuthError;

#[test]
fn saved_credentials_load_again() {
    let stored = save_credentials("a@example.com", "pw").unwrap();
    let found = load_credentials(Some(&stored)).unwrap();
    assert_eq!(found.identifier, "a@example.com");
    assert_eq!(found.secret, "pw");
}

#[test]
fn saved_credentials_are_not_stored_in_the_clear() {
    let stored = save_credentials("a@example.com", "pw").unwrap();
    assert!(!stored.contains("a@example.com"));
    assert!(!stored.contains("pw\""));
    assert_ne!(stored, credentials_text("a@example.com", "pw"));
}

#[test]
fn saved_credentials_keep_every_character() {
    let identifier = "we\"ird\\ na\nme {}:,";
    let secret = " \t~!@#$%^&*()_+|é漢";
    let stored = save_credentials(identifier, secret).unwrap();
    let found = load_credentials(Some(&stored)).unwrap();
    assert_eq!(found.identifier, identifier);
    assert_eq!(found.secret, secret);
}

#[test]
fn empty_credentials_load_as_empty() {
    let stored = save_credentials("", "").unwrap();
    let found = load_credentials(Some(&stored)).unwrap();
    assert_eq!(found.identifier, "");
    assert_eq!(found.secret, "");
}

#[test]
fn load_without_a_file_is_not_found() {
    assert!(matches!(
        load_credentials(None),
        Err(AuthError::CredentialsNotFound)
    ));
}

#[test]
fn load_of_a_corrupt_file_is_a_decrypt_error() {
    assert!(matches!(
        load_credentials(Some("")),
        Err(AuthError::DecryptError)
    ));
    assert!(matches!(
        load_credentials(Some("not hex")),
        Err(AuthError::DecryptError)
    ));
    assert!(matches!(
        load_credentials(Some("00ff00ff")),
        Err(AuthError::DecryptError)
    ));
}

#[test]
fn load_of_a_damaged_file_is_a_decrypt_error() {
    let stored = save_credentials("a@example.com", "pw").unwrap();
    let mut damaged = stored.clone();
    let last = damaged.pop().unwrap();
    damaged.push(if last == '0' { '1' } else { '0' });
    assert!(matches!(
        load_credentials(Some(&damaged)),
        Err(AuthError::DecryptError)
    ));
}

#[test]
fn credentials_text_is_a_json_object_of_both() {
    assert_eq!(
        credentials_text("a@example.com", "pw"),
        "{\"identifier\":\"a@example.com\",\"secret\":\"pw\"}"
    );
}

#[test]
fn read_credentials_wants_both_strings() {
    let found = read_credentials(b"{\"identifier\":\"i\",\"secret\":\"s\"}").unwrap();
    assert_eq!(found.identifier, "i");
    assert_eq!(found.secret, "s");
    assert!(matches!(
        read_credentials(b"{\"identifier\":\"i\"}"),
        Err(AuthError::DecryptError)
    ));
    assert!(matches!(
        read_credentials(b"{\"secret\":\"s\"}"),
        Err(AuthError::DecryptError)
    ));
    assert!(matches!(
        read_credentials(b"{\"identifier\":1,\"secret\":\"s\"}"),
        Err(AuthError::DecryptError)
    ));
    assert!(matches!(
        read_credentials(b"{}"),
        Err(AuthError::DecryptError)
    ));
    assert!(matches!(
        read_credentials(b"garbage"),
        Err(AuthError::DecryptError)
    ));
}
