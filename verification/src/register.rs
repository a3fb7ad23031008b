use crate::challenge::{without_challenge_id, Challenge};
use crate::hashing::{generate_password_hash, is_digest_of, is_token, VERIFICATION_CODE_BYTES};
use crate::mail::{
    complete_challenge, completion, conclude_issue, create_challenge, is_code_digest,
    is_new_challenge, AppMailer, Completion, CHALLENGE_EXPIRE_AFTER_SECONDS,
};
use crate::result::{AppError, AuthError, MailError, StoreError};
use crate::routes::confirmation_link;
use crate::state::State;
use crate::table::{lemma_push_then_remove, lookup};
use crate::text::contains_char;
use crate::user::{
    verified, with_email, without_user_id, User, UserData, UserDataView, UserState, UserView,
};
use vstd::prelude::*;

verus! {

/// The least number of bytes in a password.
pub const MINIMUM_PASSWORD_LENGTH: usize = 8;

/// Why a registration was refused. Each can be put right by entering
/// different details.
#[derive(Debug, Clone, Copy, PartialEq, Eq, Structural)]
pub enum RegistrationError {
    MalformedEmail,
    EmailAlreadyExists,
    EmailFailed,
    MissingDisplayName,
    PasswordTooShort,
}

/// How a registration ended: the id of the new user, or `-1` and the
/// reason why there is none.
#[derive(Debug, Clone, Copy, PartialEq, Eq, Structural)]
pub struct RegistrationOutcome {
    pub new_user_id: i64,
    pub error: Option<RegistrationError>,
}

impl RegistrationError {
    /// The message that tells the user what to put right.
    pub fn message(&self) -> (text: &'static str)
        ensures
            text@ == match self {
                RegistrationError::MalformedEmail => "Malformed email address"@,
                RegistrationError::EmailAlreadyExists => "Email address already in use"@,
                RegistrationError::EmailFailed =>
                    "Failed to send an email with the verification link"@,
                RegistrationError::MissingDisplayName => "Please choose a display name"@,
                RegistrationError::PasswordTooShort =>
                    "Please choose a password of at least 8 characters"@,
            },
    {
        match self {
            RegistrationError::MalformedEmail => "Malformed email address",
            RegistrationError::EmailAlreadyExists => "Email address already in use",
            RegistrationError::EmailFailed => "Failed to send an email with the verification link",
            RegistrationError::MissingDisplayName => "Please choose a display name",
            RegistrationError::PasswordTooShort =>
                "Please choose a password of at least 8 characters",
        }
    }
}

/// The outcome of a registration that was refused.
pub open spec fn refused(error: RegistrationError) -> RegistrationOutcome {
    RegistrationOutcome { new_user_id: -1i64, error: Some(error) }
}

/// What is wrong with the details of a registration, if anything: an
/// email address without `@`, an empty display name, or a password of
/// fewer than eight bytes. The first that applies is reported.
pub open spec fn validation(email: Seq<char>, display_name: Seq<char>, password: Seq<char>) -> Option<
    RegistrationError,
> {
    if !email.contains('@') {
        Some(RegistrationError::MalformedEmail)
    } else if display_name.len() == 0 {
        Some(RegistrationError::MissingDisplayName)
    } else if vstd::utf8::encode_utf8(password).len() < MINIMUM_PASSWORD_LENGTH {
        Some(RegistrationError::PasswordTooShort)
    } else {
        None
    }
}

/// Why a registration is refused before anything is stored, if it is: its
/// details are wrong, or its email address belongs to a user already.
pub open spec fn refusal(
    users: Seq<UserDataView>,
    email: Seq<char>,
    display_name: Seq<char>,
    password: Seq<char>,
) -> Option<RegistrationError> {
    match validation(email, display_name, password) {
        Some(e) => Some(e),
        None => if lookup(users, with_email(email)) is Some {
            Some(RegistrationError::EmailAlreadyExists)
        } else {
            None
        },
    }
}

/// Whether a row is the user that a registration creates: the details
/// given, the id that the table assigned, a digest that the password
/// verifies against, and the email address still to be verified.
pub open spec fn is_new_user(row: UserDataView, id: i64, details: UserView, password: Seq<char>) -> bool {
    &&& row.user == (UserView { id, ..details })
    &&& row.state == (UserState {
        is_suspended: false,
        require_email_verification: true,
        require_password_change: false,
    })
    &&& is_digest_of(row.password_hash, password)
}

/// Checks the details of a registration. The client may have checked them
/// too; that is not relied on.
pub fn validate_registration(email: &str, display_name: &str, password: &str) -> (error: Option<
    RegistrationError,
>)
    ensures
        error == validation(email@, display_name@, password@),
{
    if !contains_char(email, '@') {
        Some(RegistrationError::MalformedEmail)
    } else if display_name.is_empty() {
        Some(RegistrationError::MissingDisplayName)
    } else if password.as_bytes().len() < MINIMUM_PASSWORD_LENGTH {
        Some(RegistrationError::PasswordTooShort)
    } else {
        None
    }
}

/// Decides how a registration ends once the verification challenge was
/// issued, or was not: the id of the user to take back, if any, and the
/// result for the caller.
///
/// Where the challenge went out, the user stands and the registration has
/// succeeded. Where it did not, the user is to be taken back, since they
/// could never verify their address. A mail that could not be sent is a
/// typed outcome that the user can be told of; any other error is handed
/// on as it is.
pub fn judge_registration(new_user_id: i64, issued: Result<i64, AppError>) -> (verdict: (
    Option<i64>,
    Result<RegistrationOutcome, AppError>,
))
    ensures
        verdict == match issued {
            Ok(_) => (
                None::<i64>,
                Ok::<RegistrationOutcome, AppError>(
                    RegistrationOutcome { new_user_id, error: None },
                ),
            ),
            Err(AppError::Mail(_)) => (
                Some(new_user_id),
                Ok::<RegistrationOutcome, AppError>(refused(RegistrationError::EmailFailed)),
            ),
            Err(e) => (Some(new_user_id), Err::<RegistrationOutcome, AppError>(e)),
        },
{
    match issued {
        Ok(_) => (None, Ok(RegistrationOutcome { new_user_id, error: None })),
        Err(AppError::Mail(_)) => (
            Some(new_user_id),
            Ok(RegistrationOutcome { new_user_id: -1, error: Some(RegistrationError::EmailFailed) }),
        ),
        Err(e) => (Some(new_user_id), Err(e)),
    }
}

/// Concludes a registration once the verification challenge was issued, or
/// was not: what `judge_registration` decides is done to the user table.
pub fn conclude_registration(state: &mut State, new_user_id: i64, issued: Result<i64, AppError>) -> (r:
    Result<RegistrationOutcome, AppError>)
    requires
        old(state).wf(),
    ensures
        final(state).wf(),
        final(state).same_sessions(old(state)),
        final(state).same_challenges(old(state)),
        final(state).cfg == old(state).cfg,
        final(state).users.next_id() == old(state).users.next_id(),
        match issued {
            Ok(_) => {
                &&& r == Ok::<RegistrationOutcome, AppError>(
                    RegistrationOutcome { new_user_id, error: None },
                )
                &&& final(state).users@ == old(state).users@
            },
            Err(AppError::Mail(_)) => {
                &&& r == Ok::<RegistrationOutcome, AppError>(
                    refused(RegistrationError::EmailFailed),
                )
                &&& final(state).users@ == old(state).users@.filter(
                    without_user_id(new_user_id),
                )
            },
            Err(e) => {
                &&& r == Err::<RegistrationOutcome, AppError>(e)
                &&& final(state).users@ == old(state).users@.filter(
                    without_user_id(new_user_id),
                )
            },
        },
{
    let (undo, result) = judge_registration(new_user_id, issued);
    match undo {
        Some(id) => {
            state.users.delete_user(id);
        },
        None => {},
    }
    result
}

/// Settles a registration once the mailer has answered for the
/// verification link.
///
/// Where the link went out, the user and the challenge stand and the
/// registration has succeeded. Where it did not, both are taken back: the
/// challenge, so that a code nobody received redeems nothing, and the
/// user, who could never verify their address. The outcome then is the
/// typed email failure, not an error.
pub fn settle_registration(
    state: &mut State,
    new_user_id: i64,
    challenge_id: i64,
    delivery: Result<(), MailError>,
) -> (r: Result<RegistrationOutcome, AppError>)
    requires
        old(state).wf(),
    ensures
        final(state).wf(),
        final(state).same_sessions(old(state)),
        final(state).cfg == old(state).cfg,
        final(state).users.next_id() == old(state).users.next_id(),
        final(state).challenges.next_id() == old(state).challenges.next_id(),
        match delivery {
            Ok(()) => {
                &&& r == Ok::<RegistrationOutcome, AppError>(
                    RegistrationOutcome { new_user_id, error: None },
                )
                &&& final(state).users@ == old(state).users@
                &&& final(state).challenges@ == old(state).challenges@
            },
            Err(_) => {
                &&& r == Ok::<RegistrationOutcome, AppError>(
                    refused(RegistrationError::EmailFailed),
                )
                &&& final(state).users@ == old(state).users@.filter(
                    without_user_id(new_user_id),
                )
                &&& final(state).challenges@ == old(state).challenges@.filter(
                    without_challenge_id(challenge_id),
                )
            },
        },
{
    let issued = conclude_issue(state, challenge_id, delivery);
    conclude_registration(state, new_user_id, issued)
}

/// Registers a new user at `now`, and sends them the link that verifies
/// their email address.
///
/// The user is stored at once, flagged as unverified, together with a
/// `VerifyNewUser` challenge; completing the challenge clears the flag.
/// A registration that is refused, and one whose mail could not be sent,
/// leave no trace: the users and the challenges are those of before.
pub fn register<M: AppMailer>(state: &mut State, mailer: &mut M, user: User, password: &str, now: i64) -> (r:
    Result<RegistrationOutcome, AppError>)
    requires
        old(state).wf(),
        refusal(old(state).users@, user@.email, user@.display_name, password@) is None ==> now
            + CHALLENGE_EXPIRE_AFTER_SECONDS <= i64::MAX,
    ensures
        final(state).wf(),
        final(state).same_sessions(old(state)),
        final(state).cfg == old(state).cfg,
        match refusal(old(state).users@, user@.email, user@.display_name, password@) {
            Some(e) => {
                &&& r matches Ok(outcome)
                &&& outcome == refused(e)
                &&& final(state).same_users(old(state))
                &&& final(state).same_challenges(old(state))
            },
            None => match r {
                Ok(outcome) => match outcome.error {
                    None => {
                        &&& outcome.new_user_id == old(state).users.next_id()
                        &&& final(state).users@ == old(state).users@.push(
                            final(state).users@.last(),
                        )
                        &&& is_new_user(
                            final(state).users@.last(),
                            outcome.new_user_id,
                            user@,
                            password@,
                        )
                        &&& final(state).challenges@ == old(state).challenges@.push(
                            final(state).challenges@.last(),
                        )
                        &&& is_new_challenge(
                            final(state).challenges@.last(),
                            old(state).challenges.next_id(),
                            outcome.new_user_id,
                            Challenge::VerifyNewUser,
                            Seq::<char>::empty(),
                            now,
                        )
                        &&& is_code_digest(
                            final(state).challenges@.last().code_hash,
                            VERIFICATION_CODE_BYTES as nat,
                        )
                    },
                    Some(e) => {
                        &&& outcome == refused(RegistrationError::EmailFailed)
                        &&& final(state).users@ == old(state).users@
                        &&& final(state).challenges@ == old(state).challenges@
                    },
                },
                Err(e) => {
                    &&& final(state).users@ == old(state).users@
                    &&& final(state).challenges@ == old(state).challenges@
                    &&& match e {
                        AppError::Hash(_) => true,
                        AppError::Store(StoreError::IdsExhausted) => old(state).users.next_id()
                            == i64::MAX || old(state).challenges.next_id() == i64::MAX,
                        _ => false,
                    }
                },
            },
        },
{
    match validate_registration(user.email.as_str(), user.display_name.as_str(), password) {
        Some(e) => {
            return Ok(RegistrationOutcome { new_user_id: -1, error: Some(e) });
        },
        None => {},
    }
    if state.users.get_user_data_by_identifier(user.email.as_str()).is_some() {
        return Ok(
            RegistrationOutcome {
                new_user_id: -1,
                error: Some(RegistrationError::EmailAlreadyExists),
            },
        );
    }
    let password_hash = match generate_password_hash(password) {
        Ok(hash) => hash,
        Err(e) => {
            return Err(e);
        },
    };
    let data = UserData { user, password_hash, state: UserState::unverified() };
    let new_user_id = match state.users.insert_user(&data) {
        Ok(id) => id,
        Err(e) => {
            return Err(AppError::Store(e));
        },
    };
    let ghost inserted = state.users@;
    proof {
        reveal_strlit("");
        assert(""@ =~= Seq::<char>::empty());
        let before = old(state).users@;
        let row = inserted.last();
        assert(inserted == before.push(row));
        assert forall|i: int| 0 <= i < before.len() implies without_user_id(new_user_id)(
            #[trigger] before[i],
        ) by {
            assert(1 <= before[i].user.id < old(state).users.next_id());
        }
        lemma_push_then_remove(before, row, without_user_id(new_user_id));
    }
    let mut registered = data.user;
    registered.set_id(new_user_id);
    let issued = match create_challenge(
        state,
        new_user_id,
        Challenge::VerifyNewUser,
        "",
        VERIFICATION_CODE_BYTES,
        now,
    ) {
        Ok(issued) => issued,
        Err(e) => {
            return conclude_registration(state, new_user_id, Err(e));
        },
    };
    proof {
        let before = old(state).challenges@;
        let row = state.challenges@.last();
        assert(is_code_digest(row.code_hash, VERIFICATION_CODE_BYTES as nat)) by {
            assert(is_token(issued.code@, VERIFICATION_CODE_BYTES as nat));
        }
        assert forall|i: int| 0 <= i < before.len() implies without_challenge_id(issued.id)(
            #[trigger] before[i],
        ) by {
            assert(1 <= before[i].id < old(state).challenges.next_id());
        }
        lemma_push_then_remove(before, row, without_challenge_id(issued.id));
    }
    let link = confirmation_link(state.cfg.base_url.as_str(), issued.id, issued.code.as_str());
    let delivery = mailer.send_challenge(&registered, Challenge::VerifyNewUser, link.as_str());
    settle_registration(state, new_user_id, issued.id, delivery)
}

impl User {
    /// Registers a new user with these details at `now`; see [`register`].
    /// The new user is no administrator.
    pub fn register<M: AppMailer>(
        state: &mut State,
        mailer: &mut M,
        email: &str,
        display_name: &str,
        password: &str,
        now: i64,
    ) -> (r: Result<RegistrationOutcome, AppError>)
        requires
            old(state).wf(),
            refusal(old(state).users@, email@, display_name@, password@) is None ==> now
                + CHALLENGE_EXPIRE_AFTER_SECONDS <= i64::MAX,
        ensures
            final(state).wf(),
            final(state).same_sessions(old(state)),
            final(state).cfg == old(state).cfg,
            match refusal(old(state).users@, email@, display_name@, password@) {
                Some(e) => {
                    &&& r matches Ok(outcome)
                    &&& outcome == refused(e)
                    &&& final(state).same_users(old(state))
                    &&& final(state).same_challenges(old(state))
                },
                None => match r {
                    Ok(outcome) => match outcome.error {
                        None => {
                            &&& outcome.new_user_id == old(state).users.next_id()
                            &&& final(state).users@ == old(state).users@.push(
                                final(state).users@.last(),
                            )
                            &&& is_new_user(
                                final(state).users@.last(),
                                outcome.new_user_id,
                                UserView {
                                    id: -1i64,
                                    email: email@,
                                    display_name: display_name@,
                                    is_admin: false,
                                },
                                password@,
                            )
                            &&& final(state).challenges@ == old(state).challenges@.push(
                                final(state).challenges@.last(),
                            )
                            &&& is_new_challenge(
                                final(state).challenges@.last(),
                                old(state).challenges.next_id(),
                                outcome.new_user_id,
                                Challenge::VerifyNewUser,
                                Seq::<char>::empty(),
                                now,
                            )
                            &&& is_code_digest(
                            final(state).challenges@.last().code_hash,
                            VERIFICATION_CODE_BYTES as nat,
                        )
                        },
                        Some(e) => {
                            &&& outcome == refused(RegistrationError::EmailFailed)
                            &&& final(state).users@ == old(state).users@
                            &&& final(state).challenges@ == old(state).challenges@
                        },
                    },
                    Err(e) => {
                        &&& final(state).users@ == old(state).users@
                        &&& final(state).challenges@ == old(state).challenges@
                        &&& match e {
                            AppError::Hash(_) => true,
                            AppError::Store(StoreError::IdsExhausted) => old(state).users.next_id()
                                == i64::MAX || old(state).challenges.next_id() == i64::MAX,
                            _ => false,
                        }
                    },
                },
            },
    {
        let user = User {
            id: -1i64,
            email: email.to_owned(),
            display_name: display_name.to_owned(),
            is_admin: false,
        };
        register(state, mailer, user, password, now)
    }

    /// Verifies a new user by the code from the link in their mail, at
    /// `now`. With the right code, in time, the user's email address counts
    /// as verified and the challenge is deleted. Otherwise nothing changes.
    pub fn verify_account(state: &mut State, verification_id: i64, code: &str, now: i64) -> (r:
        Result<(), AppError>)
        requires
            old(state).wf(),
        ensures
            final(state).wf(),
            final(state).same_sessions(old(state)),
            final(state).cfg == old(state).cfg,
            final(state).users.next_id() == old(state).users.next_id(),
            final(state).challenges.next_id() == old(state).challenges.next_id(),
            match completion(old(state).users@, old(state).challenges@, verification_id, code@, now) {
                Completion::Redeemed(c, u) => {
                    &&& r is Ok
                    &&& final(state).users@ == old(state).users@.map_values(verified(u.user.id))
                    &&& final(state).challenges@ == old(state).challenges@.filter(
                        without_challenge_id(verification_id),
                    )
                },
                Completion::Unauthorized => {
                    &&& r matches Err(AppError::Auth(AuthError::IncorrectChallengeCode))
                    &&& final(state).users@ == old(state).users@
                    &&& final(state).challenges@ == old(state).challenges@
                },
                Completion::Corrupt => {
                    &&& r matches Err(AppError::Hash(_))
                    &&& final(state).users@ == old(state).users@
                    &&& final(state).challenges@ == old(state).challenges@
                },
            },
    {
        match complete_challenge(state, verification_id, code, now) {
            Ok(outcome) => {
                state.users.verify_user(outcome.user.id);
                Ok(())
            },
            Err(e) => Err(e),
        }
    }

    /// Deletes the verification codes that have expired at `now`. This is
    /// for a periodic sweep.
    pub fn delete_unverified_expired(state: &mut State, now: i64)
        requires
            old(state).wf(),
        ensures
            final(state).wf(),
            final(state).same_users(old(state)),
            final(state).same_sessions(old(state)),
            final(state).challenges.next_id() == old(state).challenges.next_id(),
            final(state).challenges@ == old(state).challenges@.filter(
                crate::challenge::pending_at(now),
            ),
    {
        state.challenges.delete_expired_challenges(now);
    }
}

} // verus!
