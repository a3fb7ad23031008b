use crate::hashing::{check_password, fingerprint, is_token, password_matches, SESSION_TOKEN_BYTES};
use crate::maybe_auth::{Auth, AuthView, MaybeAuth};
use crate::result::{AppError, StoreError};
use crate::session::{without_id, Session, SessionView};
use crate::state::State;
use crate::table::lookup;
use crate::token_action::{pending, AuthTokenAction, RequestContext, TokenActionView};
use crate::user::{with_email, UserData, UserDataView};
use vstd::prelude::*;

verus! {

/// How an attempt to log in with a password ended.
#[derive(Debug)]
pub enum LoginOutcome {
    /// The password is right and nothing stands between the user and
    /// their account.
    Success(Auth),
    /// The password is right, and the user has something still to do
    /// before they can go on.
    SuccessButNotReady(Auth),
    /// The password is wrong.
    IncorrectPassword,
    /// No user has this email address. To shield the list of accounts this
    /// is best answered like a wrong password.
    NoSuchUser,
}

/// Whether a login outcome is a success for this user and session.
pub open spec fn logged_in(outcome: LoginOutcome, user: UserDataView, session_id: i64) -> bool {
    let who = AuthView { user: user.user, user_state: user.state, session_id };
    if user.state.spec_is_ready() {
        outcome matches LoginOutcome::Success(auth) && auth@ == who
    } else {
        outcome matches LoginOutcome::SuccessButNotReady(auth) && auth@ == who
    }
}

/// The outcome of a login that succeeded: a plain success where nothing
/// stands between the user and their account, and a success with
/// something still to do otherwise.
pub fn login_outcome(user: UserData, session_id: i64) -> (outcome: LoginOutcome)
    ensures
        logged_in(outcome, user@, session_id),
{
    let ready = user.state.is_ready();
    let auth = Auth { user: user.user, user_state: user.state, session_id };
    if ready {
        LoginOutcome::Success(auth)
    } else {
        LoginOutcome::SuccessButNotReady(auth)
    }
}

/// Concludes a login once the password was checked against the user's
/// stored digest, at `now`.
///
/// A right password begins a session and asks for its token to be issued
/// with the response. A wrong one changes nothing. A corrupt digest is
/// handed on as the error it caused.
pub fn conclude_login(
    state: &mut State,
    request: &mut RequestContext,
    user: UserData,
    verdict: Result<bool, AppError>,
    now: i64,
) -> (r: Result<LoginOutcome, AppError>)
    requires
        old(state).wf(),
        verdict matches Ok(true) ==> now + old(state).cfg.ttl() <= i64::MAX,
    ensures
        final(state).wf(),
        final(state).same_users(old(state)),
        final(state).same_challenges(old(state)),
        final(request).auth == old(request).auth,
        match verdict {
            Ok(true) => match r {
                Ok(outcome) => {
                    &&& logged_in(outcome, user@, old(state).sessions.next_id())
                    &&& pending(final(request)) matches Some(TokenActionView::Issue(token))
                    &&& is_token(token, SESSION_TOKEN_BYTES as nat)
                    &&& lookup(old(state).sessions@, crate::session::with_hash(fingerprint(token)))
                        is None
                    &&& final(state).sessions@ == old(state).sessions@.push(
                        SessionView {
                            id: old(state).sessions.next_id(),
                            user_id: user@.user.id,
                            token_hash: fingerprint(token),
                            expires: (now + old(state).cfg.ttl()) as i64,
                        },
                    )
                },
                Err(e) => {
                    &&& final(state).same_sessions(old(state))
                    &&& pending(final(request)) == pending(old(request))
                    &&& match e {
                        AppError::EntropyExhausted => old(state).sessions@.len() > 0,
                        AppError::Store(StoreError::IdsExhausted) => old(state).sessions.next_id()
                            == i64::MAX,
                        _ => false,
                    }
                },
            },
            Ok(false) => {
                &&& r matches Ok(LoginOutcome::IncorrectPassword)
                &&& final(state).same_sessions(old(state))
                &&& pending(final(request)) == pending(old(request))
            },
            Err(e) => {
                &&& r == Err::<LoginOutcome, AppError>(e)
                &&& final(state).same_sessions(old(state))
                &&& pending(final(request)) == pending(old(request))
            },
        },
{
    match verdict {
        Err(e) => Err(e),
        Ok(false) => Ok(LoginOutcome::IncorrectPassword),
        Ok(true) => {
            let (session_id, token) = match Session::begin(state, user.user.id, now) {
                Ok(begun) => begun,
                Err(e) => {
                    return Err(e);
                },
            };
            AuthTokenAction::Issue(token).insert_into_request(request);
            Ok(login_outcome(user, session_id))
        },
    }
}

/// Logs a user in by email address and password, at `now`.
///
/// The password is checked before anything else is said of the account.
/// On success a session begins and its token is asked to be issued with
/// the response.
pub fn login(
    state: &mut State,
    request: &mut RequestContext,
    user_identifier: &str,
    password: &str,
    now: i64,
) -> (r: Result<LoginOutcome, AppError>)
    requires
        old(state).wf(),
        now + old(state).cfg.ttl() <= i64::MAX,
    ensures
        final(state).wf(),
        final(state).same_users(old(state)),
        final(state).same_challenges(old(state)),
        final(request).auth == old(request).auth,
        match lookup(old(state).users@, with_email(user_identifier@)) {
            None => {
                &&& r matches Ok(LoginOutcome::NoSuchUser)
                &&& final(state).same_sessions(old(state))
                &&& pending(final(request)) == pending(old(request))
            },
            Some(user) => match password_matches(user.password_hash, password@) {
                None => {
                    &&& r matches Err(AppError::Hash(_))
                    &&& final(state).same_sessions(old(state))
                    &&& pending(final(request)) == pending(old(request))
                },
                Some(false) => {
                    &&& r matches Ok(LoginOutcome::IncorrectPassword)
                    &&& final(state).same_sessions(old(state))
                    &&& pending(final(request)) == pending(old(request))
                },
                Some(true) => match r {
                    Ok(outcome) => {
                        &&& logged_in(outcome, user, old(state).sessions.next_id())
                        &&& pending(final(request)) matches Some(TokenActionView::Issue(token))
                        &&& is_token(token, SESSION_TOKEN_BYTES as nat)
                        &&& final(state).sessions@ == old(state).sessions@.push(
                            SessionView {
                                id: old(state).sessions.next_id(),
                                user_id: user.user.id,
                                token_hash: fingerprint(token),
                                expires: (now + old(state).cfg.ttl()) as i64,
                            },
                        )
                    },
                    Err(e) => {
                        &&& final(state).same_sessions(old(state))
                        &&& pending(final(request)) == pending(old(request))
                        &&& match e {
                            AppError::EntropyExhausted => old(state).sessions@.len() > 0,
                            AppError::Store(StoreError::IdsExhausted) => old(
                                state,
                            ).sessions.next_id() == i64::MAX,
                            _ => false,
                        }
                    },
                },
            },
        },
{
    let user = match state.users.get_user_data_by_identifier(user_identifier) {
        Some(user) => user,
        None => {
            return Ok(LoginOutcome::NoSuchUser);
        },
    };
    let verdict = check_password(user.password_hash.as_str(), password);
    conclude_login(state, request, user, verdict, now)
}

/// Logs out whoever makes the request: their session is revoked, and the
/// cookie is asked to be cleared with the response. Where nobody is
/// logged in nothing happens.
pub fn logout(state: &mut State, request: &mut RequestContext, auth: MaybeAuth)
    requires
        old(state).wf(),
    ensures
        final(state).wf(),
        final(state).same_users(old(state)),
        final(state).same_challenges(old(state)),
        final(state).sessions.next_id() == old(state).sessions.next_id(),
        final(request).auth == old(request).auth,
        match auth@ {
            Some(who) => {
                &&& final(state).sessions@ == old(state).sessions@.filter(
                    without_id(who.session_id),
                )
                &&& pending(final(request)) == Some(TokenActionView::Revoke)
            },
            None => {
                &&& final(state).sessions@ == old(state).sessions@
                &&& pending(final(request)) == pending(old(request))
            },
        },
{
    match auth {
        MaybeAuth::Authenticated(who) => {
            Session::revoke_by_id(state, who.session_id);
            AuthTokenAction::Revoke.insert_into_request(request);
        },
        MaybeAuth::Unauthenticated => {},
    }
}

} // verus!
