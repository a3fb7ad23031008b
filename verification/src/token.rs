use crate::hashing::{
    fingerprint, generate_base64_token, generate_password_hash, is_digest_of, is_token,
    is_url_safe, token_hash, SESSION_TOKEN_BYTES,
};
use crate::result::AppError;
use vstd::prelude::*;

verus! {

/// No token carries fewer random bytes than this.
pub const MIN_TOKEN_BYTES: usize = 16;

/// How many candidates in a row may collide with an existing token before
/// the generator gives up.
pub const TOKEN_GENERATOR_MAX_RETRIES: usize = 32;

/// The number of random bytes behind a token for which `requested` bytes
/// were asked: at least sixteen, rounded up to a multiple of three, so that
/// the encoding ends without padding.
pub open spec fn token_byte_length(requested: nat) -> nat {
    let floor = if requested < MIN_TOKEN_BYTES { MIN_TOKEN_BYTES as nat } else { requested };
    ((floor + 2) / 3) * 3
}

/// What follows one attempt of the generator.
#[derive(Debug, Clone, Copy, PartialEq, Eq, Structural)]
pub enum Attempt {
    /// The candidate is fresh: take it.
    Accept,
    /// The candidate collides: draw again, with this many retries counted.
    Retry(usize),
    /// The candidate collides and the budget is spent: fail for good.
    GiveUp,
}

/// The rule of the retry budget. A fresh candidate is accepted whatever the
/// count; a collision is counted, and the count reaching the cap ends it.
pub open spec fn after_attempt(retries: nat, fresh: bool) -> Attempt {
    if fresh {
        Attempt::Accept
    } else if retries + 1 >= TOKEN_GENERATOR_MAX_RETRIES {
        Attempt::GiveUp
    } else {
        Attempt::Retry((retries + 1) as usize)
    }
}

/// A token that the freshness check accepted.
#[derive(Debug)]
pub struct UniqueToken {
    /// The raw token, for the client.
    pub raw: String,
    /// Its fingerprint, for storage.
    pub hash: String,
    /// How many candidates collided before this one.
    pub retries: usize,
}

/// Whether the freshness check can answer `verdict` for a fingerprint.
pub open spec fn may_answer<F: Fn(&str) -> bool>(check: F, hash: Seq<char>, verdict: bool) -> bool {
    exists|h: &str| h@ == hash && #[trigger] call_ensures(check, (h,), verdict)
}

/// Whether the freshness check can have spent the retry budget: there are
/// as many fingerprints as the budget has attempts for each of which it
/// can answer "taken".
pub open spec fn may_exhaust<F: Fn(&str) -> bool>(check: F) -> bool {
    exists|rejected: Seq<Seq<char>>|
        {
            &&& rejected.len() == TOKEN_GENERATOR_MAX_RETRIES
            &&& forall|i: int|
                0 <= i < rejected.len() ==> may_answer(check, #[trigger] rejected[i], false)
        }
}

pub fn round_up_token_bytes(byte_length: usize) -> (n: usize)
    requires
        byte_length <= usize::MAX - 2,
    ensures
        n == token_byte_length(byte_length as nat),
        n % 3 == 0,
        n >= MIN_TOKEN_BYTES,
        byte_length <= n,
        n <= byte_length + 2 || n == 18,
{
    let floor = if byte_length < MIN_TOKEN_BYTES { MIN_TOKEN_BYTES } else { byte_length };
    ((floor + 2) / 3) * 3
}

/// Decides what follows an attempt, given the retries counted so far and
/// whether the candidate was fresh.
pub fn next_attempt(retries: usize, fresh: bool) -> (step: Attempt)
    requires
        retries < TOKEN_GENERATOR_MAX_RETRIES,
    ensures
        step == after_attempt(retries as nat, fresh),
{
    if fresh {
        Attempt::Accept
    } else if retries + 1 >= TOKEN_GENERATOR_MAX_RETRIES {
        Attempt::GiveUp
    } else {
        Attempt::Retry(retries + 1)
    }
}

/// How improbable a run of collisions is, as a number of bits: with a sound
/// randomness source, `retries` collisions in a row have probability
/// two to the minus this.
pub fn unlikeliness(retries: usize) -> (bits: usize)
    requires
        retries <= TOKEN_GENERATOR_MAX_RETRIES,
    ensures
        bits == 8 * SESSION_TOKEN_BYTES * retries,
{
    8 * SESSION_TOKEN_BYTES * retries
}

/// A random token of at least `byte_length` bytes and its fingerprint, in
/// that order.
pub fn generate_token(byte_length: usize) -> (r: (String, String))
    requires
        byte_length <= usize::MAX / 2,
    ensures
        is_token(r.0@, token_byte_length(byte_length as nat)),
        r.0@.len() == 4 * (token_byte_length(byte_length as nat) / 3),
        is_url_safe(r.0@),
        r.1@ == fingerprint(r.0@),
{
    let n = round_up_token_bytes(byte_length);
    let raw = generate_base64_token(n);
    let hash = token_hash(raw.as_str());
    (raw, hash)
}

/// A random one-time code of at least `byte_length` bytes and its slow
/// digest, in that order. A code travels by mail and may live for a day, so
/// it is hashed like a password, not like a session token.
pub fn generate_code(byte_length: usize) -> (r: Result<(String, String), AppError>)
    requires
        byte_length <= usize::MAX / 2,
    ensures
        match r {
            Ok((code, hash)) => {
                &&& is_token(code@, token_byte_length(byte_length as nat))
                &&& code@.len() == 4 * (token_byte_length(byte_length as nat) / 3)
                &&& is_url_safe(code@)
                &&& is_digest_of(hash@, code@)
            },
            Err(e) => e is Hash,
        },
{
    let n = round_up_token_bytes(byte_length);
    let code = generate_base64_token(n);
    match generate_password_hash(code.as_str()) {
        Ok(hash) => Ok((code, hash)),
        Err(e) => Err(e),
    }
}

/// Draws tokens of at least `byte_length` bytes until the freshness check
/// accepts one.
///
/// A colliding candidate means that the randomness source is defective, so
/// the budget is small. When it is spent the result is
/// `AppError::EntropyExhausted`, and then every one of the
/// `TOKEN_GENERATOR_MAX_RETRIES` candidates was answered `false`; a check
/// that never answers `false` is therefore always served.
pub fn generate_unique_token<F: Fn(&str) -> bool>(byte_length: usize, hash_is_fresh: F) -> (r: Result<UniqueToken, AppError>)
    requires
        byte_length <= usize::MAX / 2,
        forall|h: &str| call_requires(hash_is_fresh, (h,)),
    ensures
        match r {
            Ok(token) => {
                &&& is_token(token.raw@, token_byte_length(byte_length as nat))
                &&& token.raw@.len() == 4 * (token_byte_length(byte_length as nat) / 3)
                &&& is_url_safe(token.raw@)
                &&& token.hash@ == fingerprint(token.raw@)
                &&& may_answer(hash_is_fresh, token.hash@, true)
                &&& token.retries < TOKEN_GENERATOR_MAX_RETRIES
            },
            Err(e) => e is EntropyExhausted && may_exhaust(hash_is_fresh),
        },
{
    let mut retries: usize = 0;
    let ghost mut rejected: Seq<Seq<char>> = Seq::empty();
    loop
        invariant
            byte_length <= usize::MAX / 2,
            forall|h: &str| call_requires(hash_is_fresh, (h,)),
            retries < TOKEN_GENERATOR_MAX_RETRIES,
            rejected.len() == retries,
            forall|i: int|
                0 <= i < rejected.len() ==> may_answer(hash_is_fresh, #[trigger] rejected[i], false),
        decreases TOKEN_GENERATOR_MAX_RETRIES - retries,
    {
        let (raw, hash) = generate_token(byte_length);
        let candidate = hash.as_str();
        let fresh = hash_is_fresh(candidate);
        proof {
            assert(may_answer(hash_is_fresh, hash@, fresh)) by {
                assert(candidate@ == hash@ && call_ensures(hash_is_fresh, (candidate,), fresh));
            }
            if !fresh {
                let earlier = rejected;
                rejected = earlier.push(hash@);
                assert forall|i: int| 0 <= i < rejected.len() implies may_answer(
                    hash_is_fresh,
                    #[trigger] rejected[i],
                    false,
                ) by {
                    if i < earlier.len() {
                        assert(rejected[i] == earlier[i]);
                    }
                }
            }
        }
        match next_attempt(retries, fresh) {
            Attempt::Accept => {
                return Ok(UniqueToken { raw, hash, retries });
            },
            Attempt::Retry(counted) => {
                retries = counted;
            },
            Attempt::GiveUp => {
                return Err(AppError::EntropyExhausted);
            },
        }
    }
}

/// A fresh session token and its fingerprint, in that order, where
/// `hash_is_fresh` says whether a fingerprint is still unused. The
/// fingerprint is stored; the raw token goes to the client.
pub fn generate_session_token<F: Fn(&str) -> bool>(hash_is_fresh: F) -> (r: Result<(String, String), AppError>)
    requires
        forall|h: &str| call_requires(hash_is_fresh, (h,)),
    ensures
        match r {
            Ok((raw, hash)) => {
                &&& is_token(raw@, SESSION_TOKEN_BYTES as nat)
                &&& raw@.len() == 24
                &&& is_url_safe(raw@)
                &&& hash@ == fingerprint(raw@)
                &&& may_answer(hash_is_fresh, hash@, true)
            },
            Err(e) => e is EntropyExhausted && may_exhaust(hash_is_fresh),
        },
{
    match generate_unique_token(SESSION_TOKEN_BYTES, hash_is_fresh) {
        Ok(token) => Ok((token.raw, token.hash)),
        Err(e) => Err(e),
    }
}

} // verus!
