use crate::challenge::{
    challenges_wf, with_challenge_id, without_challenge_id, Challenge, ChallengeData,
    ChallengeView,
};
use crate::hashing::{check_password, is_digest_of, is_token, password_matches};
use crate::result::{AppError, AuthError, MailError, StoreError};
use crate::routes::confirmation_link;
use crate::state::State;
use crate::token::{generate_code, token_byte_length};
use crate::table::{
    lemma_filter_member, lemma_lookup_none, lemma_lookup_only, lemma_push_then_remove, lookup, Row,
};
use crate::user::{with_user_id, User, UserData, UserDataView};
use vstd::prelude::*;

verus! {

/// How long a challenge can be completed after it was issued: one day.
pub const CHALLENGE_EXPIRE_AFTER_SECONDS: i64 = 86_400;

/// A notice that asks nothing of its reader.
#[derive(Debug)]
pub enum Notification {
    /// An account was created for the user, with this temporary password.
    UserRegistered { temporary_password: String },
    /// The user's password was changed.
    PasswordChanged,
}

/// The capability to send mail. The application supplies it; the core
/// relies on nothing but the answer it gets.
pub trait AppMailer {
    /// Sends a notice to a user.
    fn send_notification(&mut self, user: &User, notification: Notification) -> Result<
        (),
        MailError,
    >;

    /// Sends a user the link that completes a challenge.
    fn send_challenge(&mut self, user: &User, challenge: Challenge, link: &str) -> Result<
        (),
        MailError,
    >;
}

/// A challenge that was issued: its id, and the raw code, which is known
/// only until it is sent.
#[derive(Debug)]
pub struct IssuedChallenge {
    pub id: i64,
    pub code: String,
}

/// What a completed challenge hands to its caller: whose it was and what
/// it authorizes. What the kind means is the caller's business.
#[derive(Debug)]
pub struct ChallengeOutcome {
    pub user: User,
    pub challenge: Challenge,
    pub payload: String,
}

/// What an attempt to complete a challenge amounts to.
pub enum Completion {
    /// No such challenge, no such user, too late, or the wrong code. The
    /// four are not told apart.
    Unauthorized,
    /// The stored digest of the code is corrupt.
    Corrupt,
    /// The code is right and in time.
    Redeemed(ChallengeView, UserDataView),
}

/// What a code amounts to for a challenge and its user, as far as they
/// were found, at `now`. A challenge whose expiry is `now` is too late.
pub open spec fn completion_of(
    found: Option<ChallengeView>,
    user: Option<UserDataView>,
    code: Seq<char>,
    now: i64,
) -> Completion {
    match (found, user) {
        (Some(c), Some(u)) => if now >= c.expires {
            Completion::Unauthorized
        } else {
            match password_matches(c.code_hash, code) {
                None => Completion::Corrupt,
                Some(false) => Completion::Unauthorized,
                Some(true) => Completion::Redeemed(c, u),
            }
        },
        _ => Completion::Unauthorized,
    }
}

/// What a code amounts to for the challenge with an id at `now`, given the
/// tables.
pub open spec fn completion(
    users: Seq<UserDataView>,
    challenges: Seq<ChallengeView>,
    challenge_id: i64,
    code: Seq<char>,
    now: i64,
) -> Completion {
    let found = lookup(challenges, with_challenge_id(challenge_id));
    let user = match found {
        Some(c) => lookup(users, with_user_id(c.user_id)),
        None => None,
    };
    completion_of(found, user, code, now)
}

/// Whether a row is the challenge that issuing at `now` creates, whatever
/// the digest of its code.
pub open spec fn is_new_challenge(
    row: ChallengeView,
    id: i64,
    user_id: i64,
    challenge: Challenge,
    payload: Seq<char>,
    now: i64,
) -> bool {
    row == (ChallengeView {
        id,
        user_id,
        challenge,
        payload,
        code_hash: row.code_hash,
        expires: (now + CHALLENGE_EXPIRE_AFTER_SECONDS) as i64,
    })
}

/// Whether a digest is that of some code of `n` random bytes.
pub open spec fn is_code_digest(code_hash: Seq<char>, n: nat) -> bool {
    exists|code: Seq<char>| #[trigger] is_token(code, n) && is_digest_of(code_hash, code)
}

/// Creates a challenge for a user at `now`: draws a code of at least
/// `code_byte_length` random bytes, and stores its slow digest with the
/// kind and the payload, to expire a day from `now`. The raw code is
/// returned for sending and is kept nowhere.
pub fn create_challenge(
    state: &mut State,
    user_id: i64,
    challenge: Challenge,
    payload: &str,
    code_byte_length: usize,
    now: i64,
) -> (r: Result<IssuedChallenge, AppError>)
    requires
        old(state).wf(),
        code_byte_length <= usize::MAX / 2,
        now + CHALLENGE_EXPIRE_AFTER_SECONDS <= i64::MAX,
    ensures
        final(state).wf(),
        final(state).same_users(old(state)),
        final(state).same_sessions(old(state)),
        match r {
            Ok(issued) => {
                &&& issued.id == old(state).challenges.next_id()
                &&& is_token(issued.code@, token_byte_length(code_byte_length as nat))
                &&& final(state).challenges.next_id() == issued.id + 1
                &&& final(state).challenges@ == old(state).challenges@.push(
                    final(state).challenges@.last(),
                )
                &&& is_new_challenge(
                    final(state).challenges@.last(),
                    issued.id,
                    user_id,
                    challenge,
                    payload@,
                    now,
                )
                &&& is_digest_of(final(state).challenges@.last().code_hash, issued.code@)
            },
            Err(e) => {
                &&& final(state).same_challenges(old(state))
                &&& match e {
                    AppError::Hash(_) => true,
                    AppError::Store(StoreError::IdsExhausted) => old(state).challenges.next_id()
                        == i64::MAX,
                    _ => false,
                }
            },
        },
{
    let (code, code_hash) = match generate_code(code_byte_length) {
        Ok(pair) => pair,
        Err(e) => {
            return Err(e);
        },
    };
    let expires = now + CHALLENGE_EXPIRE_AFTER_SECONDS;
    let ghost digest = code_hash@;
    match state.challenges.insert_challenge(user_id, challenge, payload, code_hash, expires) {
        Ok(id) => {
            proof {
                let row = ChallengeView {
                    id,
                    user_id,
                    challenge,
                    payload: payload@,
                    code_hash: digest,
                    expires: (now + CHALLENGE_EXPIRE_AFTER_SECONDS) as i64,
                };
                assert(state.challenges@ == old(state).challenges@.push(row));
                assert(state.challenges@.last() == row);
            }
            Ok(IssuedChallenge { id, code })
        },
        Err(e) => Err(AppError::Store(e)),
    }
}

/// Decides what is to be done about a challenge once the mailer has
/// answered: the id of the challenge to delete, if any, and the result for
/// the caller.
///
/// Where the message went out, the challenge stands. Where it did not, the
/// challenge is to be deleted: a code that its user can never receive must
/// not stay redeemable. The failure is handed on as the mail error that it
/// is.
pub fn judge_delivery(challenge_id: i64, delivery: Result<(), MailError>) -> (verdict: (
    Option<i64>,
    Result<i64, AppError>,
))
    ensures
        verdict == match delivery {
            Ok(()) => (None::<i64>, Ok::<i64, AppError>(challenge_id)),
            Err(e) => (Some(challenge_id), Err::<i64, AppError>(AppError::Mail(e))),
        },
{
    match delivery {
        Ok(()) => (None, Ok(challenge_id)),
        Err(e) => (Some(challenge_id), Err(AppError::Mail(e))),
    }
}

/// Concludes the issuing of a challenge once the mailer has answered: what
/// `judge_delivery` decides is done to the table.
pub fn conclude_issue(state: &mut State, challenge_id: i64, delivery: Result<(), MailError>) -> (r:
    Result<i64, AppError>)
    requires
        old(state).wf(),
    ensures
        final(state).wf(),
        final(state).same_users(old(state)),
        final(state).same_sessions(old(state)),
        final(state).challenges.next_id() == old(state).challenges.next_id(),
        match delivery {
            Ok(()) => r == Ok::<i64, AppError>(challenge_id) && final(state).challenges@ == old(
                state,
            ).challenges@,
            Err(e) => r == Err::<i64, AppError>(AppError::Mail(e)) && final(state).challenges@
                == old(state).challenges@.filter(without_challenge_id(challenge_id)),
        },
{
    let (undo, result) = judge_delivery(challenge_id, delivery);
    match undo {
        Some(id) => {
            state.challenges.delete_challenge_by_id(id);
        },
        None => {},
    }
    result
}

/// Issues a challenge to a user at `now`: creates it, with a code of at
/// least `code_byte_length` random bytes, and has the mailer send the link
/// that completes it.
///
/// On success the new challenge is the last row of its table. On any error
/// the table holds the rows it held before, and no others: where the mail
/// could not be delivered, the challenge is gone again.
pub fn issue_challenge<M: AppMailer>(
    state: &mut State,
    mailer: &mut M,
    user: &User,
    challenge: Challenge,
    payload: &str,
    code_byte_length: usize,
    now: i64,
) -> (r: Result<i64, AppError>)
    requires
        old(state).wf(),
        code_byte_length <= usize::MAX / 2,
        now + CHALLENGE_EXPIRE_AFTER_SECONDS <= i64::MAX,
    ensures
        final(state).wf(),
        final(state).same_users(old(state)),
        final(state).same_sessions(old(state)),
        match r {
            Ok(id) => {
                &&& id == old(state).challenges.next_id()
                &&& final(state).challenges.next_id() == id + 1
                &&& final(state).challenges@ == old(state).challenges@.push(
                    final(state).challenges@.last(),
                )
                &&& is_new_challenge(
                    final(state).challenges@.last(),
                    id,
                    user.id,
                    challenge,
                    payload@,
                    now,
                )
                &&& is_code_digest(
                    final(state).challenges@.last().code_hash,
                    token_byte_length(code_byte_length as nat),
                )
            },
            Err(e) => {
                &&& final(state).challenges@ == old(state).challenges@
                &&& match e {
                    AppError::Mail(_) => true,
                    AppError::Hash(_) => true,
                    AppError::Store(StoreError::IdsExhausted) => old(state).challenges.next_id()
                        == i64::MAX,
                    _ => false,
                }
            },
        },
{
    let issued = match create_challenge(
        state,
        user.id,
        challenge,
        payload,
        code_byte_length,
        now,
    ) {
        Ok(issued) => issued,
        Err(e) => {
            return Err(e);
        },
    };
    let ghost created = state.challenges@;
    proof {
        assert(is_token(issued.code@, token_byte_length(code_byte_length as nat)));
        assert(is_code_digest(
            created.last().code_hash,
            token_byte_length(code_byte_length as nat),
        ));
    }
    let link = confirmation_link(state.cfg.base_url.as_str(), issued.id, issued.code.as_str());
    let delivery = mailer.send_challenge(user, challenge, link.as_str());
    proof {
        let before = old(state).challenges@;
        let row = created.last();
        assert(created == before.push(row));
        assert forall|i: int| 0 <= i < before.len() implies without_challenge_id(issued.id)(
            #[trigger] before[i],
        ) by {
            assert(1 <= before[i].id < old(state).challenges.next_id());
        }
        lemma_push_then_remove(before, row, without_challenge_id(issued.id));
    }
    conclude_issue(state, issued.id, delivery)
}

/// Judges an attempt to complete a challenge once the code was checked
/// against the stored digest. A right code hands out the user and the
/// kind; a wrong code is an authorization failure; a corrupt digest is
/// handed on as the error it caused.
pub fn judge_code(data: &ChallengeData, user: &UserData, verdict: Result<bool, AppError>) -> (r:
    Result<ChallengeOutcome, AppError>)
    ensures
        match verdict {
            Ok(true) => {
                &&& r matches Ok(outcome)
                &&& outcome.user@ == user@.user
                &&& outcome.challenge == data.challenge
                &&& outcome.payload@ == data.payload@
            },
            Ok(false) => r matches Err(AppError::Auth(AuthError::IncorrectChallengeCode)),
            Err(e) => r == Err::<ChallengeOutcome, AppError>(e),
        },
{
    match verdict {
        Ok(true) => Ok(
            ChallengeOutcome {
                user: user.user.duplicate(),
                challenge: data.challenge,
                payload: data.payload.clone(),
            },
        ),
        Ok(false) => Err(AppError::Auth(AuthError::IncorrectChallengeCode)),
        Err(e) => Err(e),
    }
}

/// Decides what a code amounts to for a challenge and its user, as far as
/// they were found, at `now`. Nothing is stored or deleted here: a caller
/// that gets `Ok` deletes the challenge, so that it is redeemed once.
pub fn redeem(found: Option<&ChallengeData>, user: Option<&UserData>, code: &str, now: i64) -> (r:
    Result<ChallengeOutcome, AppError>)
    ensures
        match completion_of(
            match found {
                Some(c) => Some(c@),
                None => None,
            },
            match user {
                Some(u) => Some(u@),
                None => None,
            },
            code@,
            now,
        ) {
            Completion::Unauthorized => r matches Err(
                AppError::Auth(AuthError::IncorrectChallengeCode),
            ),
            Completion::Corrupt => r matches Err(AppError::Hash(_)),
            Completion::Redeemed(c, u) => {
                &&& r matches Ok(outcome)
                &&& outcome.user@ == u.user
                &&& outcome.challenge == c.challenge
                &&& outcome.payload@ == c.payload
            },
        },
{
    match (found, user) {
        (Some(data), Some(user)) => {
            if now >= data.expires {
                return Err(AppError::Auth(AuthError::IncorrectChallengeCode));
            }
            let verdict = check_password(data.code_hash.as_str(), code);
            judge_code(data, user, verdict)
        },
        _ => Err(AppError::Auth(AuthError::IncorrectChallengeCode)),
    }
}

/// Completes the challenge with an id, given the code from the link, at
/// `now`.
///
/// It fails as unauthorized where the challenge or its user does not
/// exist, where it has expired, and where the code is wrong; none of these
/// changes anything, and the answer does not tell them apart. With the
/// right code the challenge is deleted, so that it is redeemed once, and
/// its user and kind are returned.
pub fn complete_challenge(state: &mut State, challenge_id: i64, code: &str, now: i64) -> (r: Result<
    ChallengeOutcome,
    AppError,
>)
    requires
        old(state).wf(),
    ensures
        final(state).wf(),
        final(state).same_users(old(state)),
        final(state).same_sessions(old(state)),
        final(state).challenges.next_id() == old(state).challenges.next_id(),
        match completion(old(state).users@, old(state).challenges@, challenge_id, code@, now) {
            Completion::Unauthorized => {
                &&& r matches Err(AppError::Auth(AuthError::IncorrectChallengeCode))
                &&& final(state).challenges@ == old(state).challenges@
            },
            Completion::Corrupt => {
                &&& r matches Err(AppError::Hash(_))
                &&& final(state).challenges@ == old(state).challenges@
            },
            Completion::Redeemed(c, u) => {
                &&& r matches Ok(outcome)
                &&& outcome.user@ == u.user
                &&& outcome.challenge == c.challenge
                &&& outcome.payload@ == c.payload
                &&& final(state).challenges@ == old(state).challenges@.filter(
                    without_challenge_id(challenge_id),
                )
            },
        },
{
    let found = state.challenges.get_challenge_by_id(challenge_id);
    let user = match &found {
        Some(data) => state.users.get_user_data_by_id(data.user_id),
        None => None,
    };
    let r = redeem(found.as_ref(), user.as_ref(), code, now);
    if r.is_ok() {
        state.challenges.delete_challenge_by_id(challenge_id);
    }
    r
}

/// A challenge that was just issued is redeemed by its code at any moment
/// before its expiry, as long as its user exists.
pub proof fn lemma_issued_challenge_is_redeemable(
    users: Seq<UserDataView>,
    challenges: Seq<ChallengeView>,
    next_id: i64,
    issued: ChallengeView,
    code: Seq<char>,
    now: i64,
)
    requires
        challenges_wf(challenges, next_id),
        issued.id == next_id,
        is_digest_of(issued.code_hash, code),
        lookup(users, with_user_id(issued.user_id)) is Some,
        now < issued.expires,
    ensures
        completion(users, challenges.push(issued), issued.id, code, now) == Completion::Redeemed(
            issued,
            lookup(users, with_user_id(issued.user_id))->0,
        ),
{
    let after = challenges.push(issued);
    assert forall|k: int| 0 <= k < after.len() && k != challenges.len() implies !with_challenge_id(
        issued.id,
    )(#[trigger] after[k]) by {
        assert(after[k] == challenges[k]);
        assert(1 <= challenges[k].id < next_id);
    }
    lemma_lookup_only(after, with_challenge_id(issued.id), challenges.len() as int);
}

/// A challenge is redeemed once: after it was completed, completing it
/// again fails as unauthorized, with the same code and with any other, at
/// any moment.
pub proof fn lemma_challenge_redeemed_once(
    users: Seq<UserDataView>,
    challenges: Seq<ChallengeView>,
    challenge_id: i64,
    code: Seq<char>,
    now: i64,
)
    ensures
        completion(
            users,
            challenges.filter(without_challenge_id(challenge_id)),
            challenge_id,
            code,
            now,
        ) is Unauthorized,
{
    let after = challenges.filter(without_challenge_id(challenge_id));
    assert forall|i: int| 0 <= i < after.len() implies !with_challenge_id(challenge_id)(
        #[trigger] after[i],
    ) by {
        lemma_filter_member(challenges, without_challenge_id(challenge_id), i);
    }
    lemma_lookup_none(after, with_challenge_id(challenge_id));
}

} // verus!
