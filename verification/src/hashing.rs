use crate::result::AppError;
use argon2::PasswordHasher;
use base64::Engine;
use rand::Rng;
use sha2::Digest;
use vstd::prelude::*;

verus! {

/// The number of random bytes in a session token. Eighteen bytes encode to
/// twenty-four base64 characters with no padding.
pub const SESSION_TOKEN_BYTES: usize = 18;

/// The number of random bytes in a verification code.
pub const VERIFICATION_CODE_BYTES: usize = 18;

/// The SHA-256 digest of a byte string.
pub uninterp spec fn sha256(data: Seq<u8>) -> Seq<u8>;

/// The URL-safe, padded base64 text of a byte string.
pub uninterp spec fn base64_url(data: Seq<u8>) -> Seq<char>;

/// Whether a text parses as a PHC string.
pub uninterp spec fn phc_parses(text: Seq<char>) -> bool;

/// Whether Argon2, run on a candidate with the salt and the parameters of a
/// PHC string, reproduces the output that the string holds.
pub uninterp spec fn phc_accepts(stored: Seq<char>, candidate: Seq<char>) -> bool;

/// The PHC string that Argon2id with its default parameters gives for a
/// secret and a salt, or `None` where it refuses them.
pub uninterp spec fn argon2id_phc(secret: Seq<char>, salt: Seq<char>) -> Option<Seq<char>>;

/// The fast digest of a high-entropy secret: the base64 text of the SHA-256
/// digest of its UTF-8 bytes.
pub open spec fn fingerprint(secret: Seq<char>) -> Seq<char> {
    base64_url(sha256(vstd::utf8::encode_utf8(secret)))
}

/// What checking a candidate against a stored digest gives: `None` where
/// the stored digest is corrupt, else whether the candidate is accepted.
pub open spec fn password_matches(stored: Seq<char>, candidate: Seq<char>) -> Option<bool> {
    if phc_parses(stored) {
        Some(phc_accepts(stored, candidate))
    } else {
        None
    }
}

/// The length of the base64 text of `n` bytes.
pub open spec fn encoded_len(n: nat) -> nat {
    4 * ((n + 2) / 3)
}

/// Whether a character belongs to the URL-safe base64 alphabet: a letter,
/// a digit, `-` or `_`.
pub open spec fn is_url_safe_char(c: char) -> bool {
    ('A' <= c <= 'Z') || ('a' <= c <= 'z') || ('0' <= c <= '9') || c == '-' || c == '_'
}

/// Whether a text can stand in a URL as it is: every character belongs to
/// the URL-safe base64 alphabet.
pub open spec fn is_url_safe(text: Seq<char>) -> bool {
    forall|i: int| 0 <= i < text.len() ==> is_url_safe_char(#[trigger] text[i])
}

/// Whether a text is the encoding of some `n` bytes.
pub open spec fn is_token(text: Seq<char>, n: nat) -> bool {
    exists|bytes: Seq<u8>| bytes.len() == n && text == #[trigger] base64_url(bytes)
}

/// Whether a digest was made from a secret: it is the PHC string that
/// Argon2id gives for the secret under some salt, and as such it parses
/// and accepts the secret.
pub open spec fn is_digest_of(digest: Seq<char>, secret: Seq<char>) -> bool {
    &&& exists|salt: Seq<char>| argon2id_phc(secret, salt) == Some(digest)
    &&& phc_parses(digest)
    &&& phc_accepts(digest, secret)
}

/// The fingerprint is a function of the secret: the same secret has the
/// same fingerprint, whenever and wherever it is computed.
pub proof fn lemma_fingerprint_is_deterministic(a: Seq<char>, b: Seq<char>)
    requires
        a == b,
    ensures
        fingerprint(a) == fingerprint(b),
{
}

/// A digest that was made from a secret verifies against that secret.
pub proof fn lemma_digest_verifies(digest: Seq<char>, secret: Seq<char>)
    requires
        is_digest_of(digest, secret),
    ensures
        password_matches(digest, secret) == Some(true),
{
}

/// A digest that was made from a secret rejects every other candidate,
/// but for those that Argon2 maps to the same output under the digest's
/// salt.
pub proof fn lemma_digest_rejects_others(digest: Seq<char>, secret: Seq<char>, candidate: Seq<char>)
    requires
        is_digest_of(digest, secret),
        candidate != secret,
        !phc_accepts(digest, candidate),
    ensures
        password_matches(digest, candidate) == Some(false),
{
}

/// Calls `Sha256::new`, `update` and `finalize` of the `sha2` crate. The
/// contract names the digest and states its length, 32 bytes.
#[verifier::external_body]
fn sha256_digest(data: &[u8]) -> (digest: Vec<u8>)
    ensures
        digest@ == sha256(data@),
        digest@.len() == 32,
{
    let mut hasher = sha2::Sha256::new();
    hasher.update(data);
    hasher.finalize().to_vec()
}

/// Calls `Engine::encode` of the `base64` crate on its `URL_SAFE` engine,
/// which pads. The contract names the text and states its length and its
/// characters: those of the URL-safe alphabet and the pad `=`, which
/// occurs only where the number of bytes is no multiple of three. Inputs
/// whose encoded length overflows are left out, since the call panics there.
#[verifier::external_body]
fn base64_encode(bytes: &[u8]) -> (text: String)
    requires
        encoded_len(bytes@.len()) <= usize::MAX,
    ensures
        text@ == base64_url(bytes@),
        text@.len() == encoded_len(bytes@.len()),
        forall|i: int|
            0 <= i < text@.len() ==> is_url_safe_char(#[trigger] text@[i]) || text@[i] == '=',
        bytes@.len() % 3 == 0 ==> is_url_safe(text@),
{
    base64::engine::general_purpose::URL_SAFE.encode(bytes)
}

/// Calls `Rng::fill` of the `rand` crate on the thread's generator. Nothing
/// is claimed of the bytes but their number.
#[verifier::external_body]
fn random_bytes(n: usize) -> (bytes: Vec<u8>)
    ensures
        bytes@.len() == n,
{
    let mut bytes = vec![0u8; n];
    rand::thread_rng().fill(bytes.as_mut_slice());
    bytes
}

/// Calls `SaltString::generate` of the `password-hash` crate on the thread's
/// generator. Nothing is claimed of the salt.
#[verifier::external_body]
fn random_salt() -> (salt: String) {
    password_hash::SaltString::generate(rand::thread_rng()).as_str().to_owned()
}

/// Calls `PasswordHasher::hash_password` on `Argon2::default()`, with the
/// salt read by `SaltString::from_b64`, and writes the result out as a PHC
/// string. The contract names that string, and states that it parses and
/// accepts the secret it was made from: verification recomputes the output
/// from the salt and parameters in the string.
#[verifier::external_body]
fn argon2_hash(secret: &str, salt: &str) -> (r: Result<String, password_hash::Error>)
    ensures
        r is Ok <==> argon2id_phc(secret@, salt@) is Some,
        r matches Ok(digest) ==> argon2id_phc(secret@, salt@) == Some(digest@),
        r matches Ok(digest) ==> phc_parses(digest@) && phc_accepts(digest@, secret@),
{
    let salt = password_hash::SaltString::from_b64(salt)?;
    let hash = argon2::Argon2::default().hash_password(secret.as_bytes(), &salt)?;
    Ok(hash.to_string())
}

/// Calls `PasswordHash::new` and then `PasswordHash::verify_password` with
/// `Argon2::default()` as the only algorithm. Parsing fails exactly on what
/// is no PHC string; verification answers "accepted" or `Error::Password`,
/// which stands for "rejected".
#[verifier::external_body]
fn phc_verify(stored: &str, candidate: &str) -> (r: Result<bool, password_hash::Error>)
    ensures
        r is Ok <==> phc_parses(stored@),
        r matches Ok(accepted) ==> accepted == phc_accepts(stored@, candidate@),
{
    let hash = password_hash::PasswordHash::new(stored)?;
    match hash.verify_password(&[&argon2::Argon2::default()], candidate) {
        Ok(()) => Ok(true),
        Err(password_hash::Error::Password) => Ok(false),
        Err(e) => Err(e),
    }
}

/// Checks a secret against a stored digest with the slow hasher. `Ok(true)`
/// means the secret is right, `Ok(false)` that it is wrong; an error means
/// that the stored digest is corrupt.
pub fn check_password(stored_hash: &str, given_password: &str) -> (r: Result<bool, AppError>)
    ensures
        match r {
            Ok(accepted) => password_matches(stored_hash@, given_password@) == Some(accepted),
            Err(e) => password_matches(stored_hash@, given_password@) is None && e is Hash,
        },
{
    match phc_verify(stored_hash, given_password) {
        Ok(accepted) => Ok(accepted),
        Err(e) => Err(AppError::Hash(e)),
    }
}

/// Hashes a secret with the slow hasher under the given salt.
pub fn hash_with_salt(secret: &str, salt: &str) -> (r: Result<String, AppError>)
    ensures
        match r {
            Ok(digest) => argon2id_phc(secret@, salt@) == Some(digest@) && is_digest_of(
                digest@,
                secret@,
            ),
            Err(e) => argon2id_phc(secret@, salt@) is None && e is Hash,
        },
{
    match argon2_hash(secret, salt) {
        Ok(digest) => Ok(digest),
        Err(e) => Err(AppError::Hash(e)),
    }
}

/// Hashes a secret with the slow hasher under a fresh random salt. The
/// digest is for storage; it verifies against the secret it was made from.
pub fn generate_password_hash(new_password: &str) -> (r: Result<String, AppError>)
    ensures
        match r {
            Ok(digest) => is_digest_of(digest@, new_password@),
            Err(e) => e is Hash,
        },
{
    let salt = random_salt();
    hash_with_salt(new_password, salt.as_str())
}

/// The fast digest of a session token. It is for secrets that are random
/// and long, never for anything a user chose.
pub fn token_hash(s: &str) -> (hash: String)
    ensures
        hash@ == fingerprint(s@),
        hash@.len() == 44,
{
    let digest = sha256_digest(s.as_bytes());
    base64_encode(digest.as_slice())
}

/// A random token of `n` bytes, base64-encoded and URL-safe.
pub(crate) fn generate_base64_token(n: usize) -> (token: String)
    requires
        encoded_len(n as nat) <= usize::MAX,
    ensures
        is_token(token@, n as nat),
        token@.len() == encoded_len(n as nat),
        n % 3 == 0 ==> is_url_safe(token@),
{
    let bytes = random_bytes(n);
    base64_encode(bytes.as_slice())
}

/// A fresh verification code and its slow digest, in that order.
pub fn generate_verification_code() -> (r: Result<(String, String), AppError>)
    ensures
        match r {
            Ok((code, hash)) => is_token(code@, VERIFICATION_CODE_BYTES as nat)
                && code@.len() == 24
                && is_url_safe(code@)
                && is_digest_of(hash@, code@),
            Err(e) => e is Hash,
        },
{
    crate::token::generate_code(VERIFICATION_CODE_BYTES)
}

/// A fresh session token and its fingerprint, in that order. The
/// fingerprint is stored; the raw token goes to the client.
pub fn generate_session_token() -> (r: (String, String))
    ensures
        is_token(r.0@, SESSION_TOKEN_BYTES as nat),
        r.0@.len() == 24,
        is_url_safe(r.0@),
        r.1@ == fingerprint(r.0@),
{
    crate::token::generate_token(SESSION_TOKEN_BYTES)
}

} // verus!
