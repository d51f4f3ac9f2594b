use artisan_cli::error::AuthError;
use artisan_cli::token::{claims_expiry, expiry_of, middle_segment, read_expiry};

#[test]
fn middle_segment_of_three_parts() {
    assert_eq!(middle_segment("a.b.c"), Some("b".to_string()));
    assert_eq!(middle_segment("a..c"), Some(String::new()));
    assert_eq!(middle_segment(".."), Some(String::new()));
}

#[test]
fn middle_segment_of_other_shapes() {
    assert_eq!(middle_segment(""), None);
    assert_eq!(middle_segment("opaque"), None);
    assert_eq!(middle_segment("a.b"), None);
    assert_eq!(middle_segment("a.b.c.d"), None);
    assert_eq!(middle_segment("a.b.c."), None);
}

#[test]
fn claims_expiry_reads_an_unsigned_integer() {
    assert_eq!(claims_expiry(b"{\"exp\":1700000000}"), Some(1700000000));
    assert_eq!(claims_expiry(b"{\"exp\":0}"), Some(0));
    assert_eq!(
        claims_expiry(b"{\"exp\":18446744073709551615}"),
        Some(u64::MAX)
    );
    assert_eq!(
        claims_expiry(b"{\"sub\":\"me\",\"exp\":12}"),
        Some(12)
    );
}

#[test]
fn claims_expiry_is_absent_where_it_cannot_be_read() {
    assert_eq!(claims_expiry(b"{\"sub\":\"me\"}"), None);
    assert_eq!(claims_expiry(b"{\"exp\":\"soon\"}"), None);
    assert_eq!(claims_expiry(b"{\"exp\":-5}"), None);
    assert_eq!(claims_expiry(b"{\"exp\":1.5}"), None);
    assert_eq!(claims_expiry(b"[1700000000]"), None);
    assert_eq!(claims_expiry(b"not json"), None);
    assert_eq!(claims_expiry(b""), None);
}

#[test]
fn expiry_of_a_structured_token() {
    assert_eq!(
        expiry_of("eyJhbGciOiJIUzI1NiJ9.eyJleHAiOjE3MDAwMDAwMDB9.sig"),
        Some(1700000000)
    );
}

#[test]
fn expiry_of_an_opaque_token_is_absent() {
    assert_eq!(expiry_of("tok1"), None);
    assert_eq!(expiry_of(""), None);
    assert_eq!(expiry_of("eyJleHAiOjE3MDAwMDAwMDB9"), None);
    assert_eq!(expiry_of("a.eyJleHAiOjE3MDAwMDAwMDB9"), None);
    assert_eq!(expiry_of("a.eyJleHAiOjE3MDAwMDAwMDB9.c.d"), None);
}

#[test]
fn expiry_of_a_token_with_unreadable_claims_is_absent() {
    assert_eq!(expiry_of("a.!!!.c"), None);
    assert_eq!(expiry_of("a.bm90IGpzb24=.c"), None);
    assert_eq!(expiry_of("a.eyJzdWIiOiJhIn0=.c"), None);
    assert_eq!(expiry_of("a..c"), None);
}

#[test]
fn expiry_is_decoded_and_not_read_from_the_text() {
    assert_ne!(expiry_of("a.eyJleHAiOjB9.c"), None);
    assert_eq!(expiry_of("a.eyJleHAiOjB9.c"), Some(0));
}

#[test]
fn read_expiry_tells_malformed_claims_from_none() {
    assert_eq!(read_expiry("tok1"), Ok(None));
    assert_eq!(read_expiry(""), Ok(None));
    assert_eq!(read_expiry("a.b"), Ok(None));
    assert_eq!(read_expiry("a.eyJleHAiOjB9.c"), Ok(Some(0)));
    assert_eq!(
        read_expiry("a.!!!.c"),
        Err(AuthError::MalformedClaims)
    );
    assert_eq!(
        read_expiry("a.bm90IGpzb24=.c"),
        Err(AuthError::MalformedClaims)
    );
    assert_eq!(
        read_expiry("a.eyJzdWIiOiJhIn0=.c"),
        Err(AuthError::MalformedClaims)
    );
    assert_eq!(read_expiry(".."), Err(AuthError::MalformedClaims));
}
