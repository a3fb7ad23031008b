use auth_core::hashing::{
    check_password, generate_password_hash, generate_session_token, generate_verification_code,
    hash_with_salt, token_hash,
};
use auth_core::result::AppError;

#[test]
fn hashing_test_password_hash() {
    let hash = generate_password_hash("example").unwrap();

    assert_eq!(true, check_password(hash.as_str(), "example").unwrap());
    assert_eq!(false, check_password(hash.as_str(), "something else").unwrap());
}

#[test]
fn hashing_test_token_hash() {
    let (raw, hash) = generate_session_token();

    assert_eq!(hash, token_hash(raw.as_str()), "Hash of raw token should equal the generated hash");
}

#[test]
fn test_hash_distinct() {
    let hash1 = token_hash("example");
    let hash2 = token_hash("something else");

    assert_ne!(hash1, hash2, "Hashes should be distinct");
}

#[test]
fn token_hash_is_the_base64_of_sha256() {
    // SHA-256 of "abc", in URL-safe base64 with padding.
    assert_eq!(token_hash("abc"), "ungWv48Bz-pBQUDeXa4iI7ADYaOWF3qctBD_YfIAFa0=");
    // SHA-256 of the empty string.
    assert_eq!(token_hash(""), "47DEQpj8HBSa-_TImW-5JCeuQeRkm5NMpJWZG3hSuFU=");
}

#[test]
fn token_hash_is_deterministic() {
    let (raw, hash) = generate_session_token();
    assert_eq!(token_hash(&raw), hash);
    assert_eq!(token_hash(&raw), token_hash(&raw));
    assert_eq!(hash.len(), 44);
}

#[test]
fn session_tokens_are_24_url_safe_characters() {
    for _ in 0..50 {
        let (raw, _) = generate_session_token();
        assert_eq!(raw.len(), 24);
        assert!(raw.chars().all(|c| c.is_ascii_alphanumeric() || c == '-' || c == '_'));
    }
}

#[test]
fn no_collisions_in_a_large_batch() {
    let mut raws = std::collections::HashSet::new();
    let mut hashes = std::collections::HashSet::new();
    for _ in 0..2000 {
        let (raw, hash) = generate_session_token();
        assert!(raws.insert(raw));
        assert!(hashes.insert(hash));
    }
}

#[test]
fn hash_with_salt_is_a_function_of_secret_and_salt() {
    let salt = "c29tZXNhbHRzb21lc2FsdA";
    let a = hash_with_salt("example", salt).unwrap();
    let b = hash_with_salt("example", salt).unwrap();
    let c = hash_with_salt("something else", salt).unwrap();
    assert_eq!(a, b);
    assert_ne!(a, c);
    assert!(a.starts_with("$argon2id$v=19$m=19456,t=2,p=1$c29tZXNhbHRzb21lc2FsdA$"));
    assert_eq!(true, check_password(&a, "example").unwrap());
    assert_eq!(false, check_password(&a, "something else").unwrap());
    assert_eq!(true, check_password(&c, "something else").unwrap());
}

#[test]
fn hash_with_salt_refuses_a_bad_salt() {
    assert!(matches!(hash_with_salt("example", "!"), Err(AppError::Hash(_))));
}

#[test]
fn generated_hashes_are_salted() {
    let a = generate_password_hash("example").unwrap();
    let b = generate_password_hash("example").unwrap();
    assert_ne!(a, b);
    assert_ne!(a, "example");
}

#[test]
fn check_password_reports_a_corrupt_digest() {
    assert!(matches!(check_password("not a digest", "example"), Err(AppError::Hash(_))));
    assert!(matches!(check_password("", "example"), Err(AppError::Hash(_))));
}

#[test]
fn verification_code_verifies_against_its_digest() {
    let (code, hash) = generate_verification_code().unwrap();
    assert_eq!(code.len(), 24);
    assert_ne!(code, hash);
    assert_eq!(true, check_password(&hash, &code).unwrap());
    assert_eq!(false, check_password(&hash, "another code").unwrap());
}
