use auth_core::hashing::{check_password, generate_password_hash, token_hash};
use auth_core::token::generate_session_token;

#[test]
fn auth_test_password_hash() {
    let hash = generate_password_hash("example").unwrap();

    assert_eq!(true, check_password(hash.as_str(), "example").unwrap());
    assert_eq!(false, check_password(hash.as_str(), "something else").unwrap());
}

#[test]
fn auth_test_token_hash() {
    let (raw, hash) = generate_session_token(|_| true).unwrap();

    assert_eq!(hash, token_hash(raw.as_str()), "Hash of raw token should equal the generated hash");
}

#[test]
fn test_tokens_distinct() {
    let (raw1, hash1) = generate_session_token(|_| true).unwrap();
    let (raw2, hash2) = generate_session_token(|h| h != hash1.as_str()).unwrap();

    assert_ne!(raw1, raw2, "Raw tokens should be distinct");
    assert_ne!(hash1, hash2, "Hashed tokens should be distinct");
}
