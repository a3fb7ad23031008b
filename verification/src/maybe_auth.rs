use crate::hashing::{fingerprint, is_token, SESSION_TOKEN_BYTES};
use crate::result::{AppError, AuthError};
use crate::session::{
    due_for_renewal, expired, is_expired, rotated, sessions_wf, should_renew, with_hash,
    without_id, Session, SessionView,
};
use crate::session_laws::{
    lemma_deleted_session_is_gone, lemma_renewal_extends, lemma_renewal_rotates,
    lemma_session_is_alone,
};
use crate::state::State;
use crate::table::{lemma_lookup_some, lookup, Row};
use crate::token_action::{AuthTokenAction, TokenActionView};
use crate::user::{with_user_id, User, UserData, UserDataView, UserState, UserView};
use vstd::prelude::*;

verus! {

/// An authenticated user and the session that vouches for them.
#[derive(Debug)]
pub struct Auth {
    pub user: User,
    pub user_state: UserState,
    pub session_id: i64,
}

/// An authenticated user as contracts see it.
pub struct AuthView {
    pub user: UserView,
    pub user_state: UserState,
    pub session_id: i64,
}

/// Who makes a request.
#[derive(Debug)]
pub enum MaybeAuth {
    Authenticated(Auth),
    Unauthenticated,
}

impl View for Auth {
    type V = AuthView;

    open spec fn view(&self) -> AuthView {
        AuthView { user: self.user@, user_state: self.user_state, session_id: self.session_id }
    }
}

impl View for MaybeAuth {
    type V = Option<AuthView>;

    open spec fn view(&self) -> Option<AuthView> {
        match self {
            MaybeAuth::Authenticated(auth) => Some(auth@),
            MaybeAuth::Unauthenticated => None,
        }
    }
}

/// What a session token amounts to at a given moment.
pub enum Resolution {
    /// No session has the token's fingerprint, or the session's user is
    /// gone: the client holds a stale or forged cookie.
    NotFound,
    /// The session has expired and is to be deleted.
    Expired(SessionView),
    /// The session is valid and in its renewal window.
    Renew(AuthView),
    /// The session is valid and not yet to be renewed.
    Valid(AuthView),
}

/// The user of a session, with the session's id.
pub open spec fn auth_of(s: SessionView, u: UserDataView) -> AuthView {
    AuthView { user: u.user, user_state: u.state, session_id: s.id }
}

/// What a session and its user, as far as they were found, amount to at
/// `now`.
pub open spec fn decision(session: Option<SessionView>, user: Option<UserDataView>, now: i64, threshold: int) -> Resolution {
    match session {
        None => Resolution::NotFound,
        Some(s) => if expired(s.expires, now) {
            Resolution::Expired(s)
        } else {
            match user {
                None => Resolution::NotFound,
                Some(u) => if due_for_renewal(s.expires, now, threshold) {
                    Resolution::Renew(auth_of(s, u))
                } else {
                    Resolution::Valid(auth_of(s, u))
                },
            }
        },
    }
}

/// What a raw token amounts to at `now`, given the tables.
pub open spec fn resolution(
    users: Seq<UserDataView>,
    sessions: Seq<SessionView>,
    token: Seq<char>,
    now: i64,
    threshold: int,
) -> Resolution {
    let session = lookup(sessions, with_hash(fingerprint(token)));
    let user = match session {
        Some(s) => lookup(users, with_user_id(s.user_id)),
        None => None,
    };
    decision(session, user, now, threshold)
}

/// A session that was found expired does not resolve again: once the
/// resolver has deleted it, its token is unknown at every later moment,
/// whatever the renewal threshold.
pub proof fn lemma_expired_session_resolves_once(
    users: Seq<UserDataView>,
    sessions: Seq<SessionView>,
    next_id: i64,
    token: Seq<char>,
    now: i64,
    threshold: int,
    later: i64,
    later_threshold: int,
)
    requires
        sessions_wf(sessions, next_id),
        resolution(users, sessions, token, now, threshold) is Expired,
    ensures
        ({
            let s = resolution(users, sessions, token, now, threshold)->Expired_0;
            resolution(users, sessions.filter(without_id(s.id)), token, later, later_threshold)
                is NotFound
        }),
{
    let s = lookup(sessions, with_hash(fingerprint(token)))->0;
    lemma_lookup_some(sessions, with_hash(fingerprint(token)));
    lemma_deleted_session_is_gone(sessions, next_id, s);
}

/// A session that was renewed is not renewed again at the same moment:
/// with the new token it resolves as valid, and the old token is unknown.
pub proof fn lemma_renewed_session_is_valid(
    users: Seq<UserDataView>,
    sessions: Seq<SessionView>,
    next_id: i64,
    token: Seq<char>,
    fresh: Seq<char>,
    now: i64,
    threshold: int,
    ttl: int,
)
    requires
        sessions_wf(sessions, next_id),
        resolution(users, sessions, token, now, threshold) is Renew,
        lookup(sessions, with_hash(fingerprint(fresh))) is None,
        0 <= threshold < ttl,
        now + ttl <= i64::MAX,
    ensures
        ({
            let who = resolution(users, sessions, token, now, threshold)->Renew_0;
            let after = sessions.map_values(
                rotated(who.session_id, fingerprint(fresh), (now + ttl) as i64),
            );
            &&& resolution(users, after, fresh, now, threshold) == Resolution::Valid(who)
            &&& resolution(users, after, token, now, threshold) is NotFound
        }),
{
    let s = lookup(sessions, with_hash(fingerprint(token)))->0;
    lemma_lookup_some(sessions, with_hash(fingerprint(token)));
    lemma_session_is_alone(sessions, next_id, s);
    lemma_renewal_extends(s.expires, now, threshold, ttl);
    lemma_renewal_rotates(sessions, next_id, s, fingerprint(fresh), now, ttl);
}

/// What the resolver decided, with the values to act on.
#[derive(Debug)]
pub enum Decision {
    /// Answer as unauthenticated and clear the cookie.
    Reject,
    /// Delete the session with this id, answer as unauthenticated and clear
    /// the cookie.
    Expire(i64),
    /// Renew the session, answer as this user and issue the new token.
    Renew(Auth),
    /// Answer as this user and leave the cookie alone.
    Accept(Auth),
}

/// Whether a decision is the one that a resolution calls for.
pub open spec fn decides(d: Decision, r: Resolution) -> bool {
    match r {
        Resolution::NotFound => d is Reject,
        Resolution::Expired(s) => d == Decision::Expire(s.id),
        Resolution::Renew(auth) => d matches Decision::Renew(a) && a@ == auth,
        Resolution::Valid(auth) => d matches Decision::Accept(a) && a@ == auth,
    }
}

/// Decides what a session and its user, as far as they were found, amount
/// to at `now`. `user` is the user of the session, and is not read where
/// the session is absent or has expired.
pub fn decide(session: Option<&Session>, user: Option<&UserData>, now: i64, threshold: i64) -> (d:
    Decision)
    ensures
        decides(
            d,
            decision(
                match session {
                    Some(s) => Some(s@),
                    None => None,
                },
                match user {
                    Some(u) => Some(u@),
                    None => None,
                },
                now,
                threshold as int,
            ),
        ),
{
    match session {
        None => Decision::Reject,
        Some(s) => {
            if is_expired(s.expires, now) {
                return Decision::Expire(s.id);
            }
            match user {
                None => Decision::Reject,
                Some(u) => {
                    let auth = Auth {
                        user: u.user.duplicate(),
                        user_state: u.state,
                        session_id: s.id,
                    };
                    if should_renew(s.expires, now, threshold) {
                        Decision::Renew(auth)
                    } else {
                        Decision::Accept(auth)
                    }
                },
            }
        },
    }
}

impl MaybeAuth {
    /// Decides what the raw token of a session cookie amounts to at `now`,
    /// given the tables. Nothing changes.
    pub fn decision_for(state: &State, token: &str, now: i64) -> (d: Decision)
        requires
            state.wf(),
        ensures
            decides(
                d,
                resolution(state.users@, state.sessions@, token@, now, state.cfg.threshold()),
            ),
    {
        let session = Session::resolve(state, token);
        let user = match &session {
            Some(s) => state.users.get_user_data_by_id(s.user_id),
            None => None,
        };
        let threshold = state.cfg.renew_threshold_seconds();
        decide(session.as_ref(), user.as_ref(), now, threshold)
    }

    /// Carries out a decision of the resolver at `now`.
    ///
    /// - Reject: unauthenticated, and the cookie is revoked. Nothing
    ///   changes.
    /// - Expire: the session is deleted; unauthenticated, and the cookie is
    ///   revoked.
    /// - Renew: the session is renewed, and the new token is issued.
    /// - Accept: authenticated, and nothing is done to the cookie. Nothing
    ///   changes.
    ///
    /// Only renewal can fail, when the token generator gives up; then
    /// nothing has changed.
    pub fn carry_out(state: &mut State, decision: Decision, now: i64) -> (r: Result<
        (MaybeAuth, AuthTokenAction),
        AppError,
    >)
        requires
            old(state).wf(),
            decision is Renew ==> now + old(state).cfg.ttl() <= i64::MAX,
        ensures
            final(state).wf(),
            final(state).same_users(old(state)),
            final(state).same_challenges(old(state)),
            final(state).sessions.next_id() == old(state).sessions.next_id(),
            match decision {
                Decision::Reject => {
                    &&& r matches Ok((auth, action))
                    &&& auth@ is None
                    &&& action@ == TokenActionView::Revoke
                    &&& final(state).same_sessions(old(state))
                },
                Decision::Expire(session_id) => {
                    &&& r matches Ok((auth, action))
                    &&& auth@ is None
                    &&& action@ == TokenActionView::Revoke
                    &&& final(state).sessions@ == old(state).sessions@.filter(
                        without_id(session_id),
                    )
                },
                Decision::Renew(who) => match r {
                    Ok((auth, action)) => {
                        &&& auth@ == Some(who@)
                        &&& action matches AuthTokenAction::Issue(fresh)
                        &&& is_token(fresh@, SESSION_TOKEN_BYTES as nat)
                        &&& lookup(old(state).sessions@, with_hash(fingerprint(fresh@))) is None
                        &&& final(state).sessions@ == old(state).sessions@.map_values(
                            rotated(
                                who.session_id,
                                fingerprint(fresh@),
                                (now + old(state).cfg.ttl()) as i64,
                            ),
                        )
                    },
                    Err(e) => {
                        &&& e is EntropyExhausted
                        &&& old(state).sessions@.len() > 0
                        &&& final(state).same_sessions(old(state))
                    },
                },
                Decision::Accept(who) => {
                    &&& r matches Ok((auth, action))
                    &&& auth@ == Some(who@)
                    &&& action@ == TokenActionView::DoNothing
                    &&& final(state).same_sessions(old(state))
                },
            },
    {
        match decision {
            Decision::Reject => Ok((MaybeAuth::Unauthenticated, AuthTokenAction::Revoke)),
            Decision::Expire(session_id) => {
                Session::revoke_by_id(state, session_id);
                Ok((MaybeAuth::Unauthenticated, AuthTokenAction::Revoke))
            },
            Decision::Renew(auth) => {
                match Session::renew(state, auth.session_id, now) {
                    Ok(fresh) => Ok((MaybeAuth::Authenticated(auth), AuthTokenAction::Issue(fresh))),
                    Err(e) => Err(e),
                }
            },
            Decision::Accept(auth) => Ok(
                (MaybeAuth::Authenticated(auth), AuthTokenAction::DoNothing),
            ),
        }
    }

    /// Resolves the raw token of a session cookie at `now`.
    ///
    /// - No session has the token's fingerprint: unauthenticated, and the
    ///   stale cookie is revoked. Nothing changes.
    /// - The session has expired: it is deleted; unauthenticated, and the
    ///   cookie is revoked.
    /// - The session is valid and in its renewal window: it is renewed,
    ///   and the new token is issued.
    /// - The session is valid otherwise: authenticated, and nothing is done
    ///   to the cookie. Nothing changes.
    ///
    /// Only renewal can fail, when the token generator gives up; then
    /// nothing has changed. Only renewal adds to the clock, so only there
    /// must one lifetime from `now` be a moment that can be told; a caller
    /// who cannot know where the token leads sees to it for every token.
    pub fn authenticate_by_session_token(state: &mut State, token: &str, now: i64) -> (r: Result<
        (MaybeAuth, AuthTokenAction),
        AppError,
    >)
        requires
            old(state).wf(),
            resolution(
                old(state).users@,
                old(state).sessions@,
                token@,
                now,
                old(state).cfg.threshold(),
            ) is Renew ==> now + old(state).cfg.ttl() <= i64::MAX,
        ensures
            final(state).wf(),
            final(state).same_users(old(state)),
            final(state).same_challenges(old(state)),
            final(state).sessions.next_id() == old(state).sessions.next_id(),
            match resolution(
                old(state).users@,
                old(state).sessions@,
                token@,
                now,
                old(state).cfg.threshold(),
            ) {
                Resolution::NotFound => {
                    &&& r matches Ok((auth, action))
                    &&& auth@ is None
                    &&& action@ == TokenActionView::Revoke
                    &&& final(state).same_sessions(old(state))
                },
                Resolution::Expired(s) => {
                    &&& r matches Ok((auth, action))
                    &&& auth@ is None
                    &&& action@ == TokenActionView::Revoke
                    &&& final(state).sessions@ == old(state).sessions@.filter(without_id(s.id))
                },
                Resolution::Renew(who) => match r {
                    Ok((auth, action)) => {
                        &&& auth@ == Some(who)
                        &&& action matches AuthTokenAction::Issue(fresh)
                        &&& is_token(fresh@, SESSION_TOKEN_BYTES as nat)
                        &&& lookup(old(state).sessions@, with_hash(fingerprint(fresh@))) is None
                        &&& final(state).sessions@ == old(state).sessions@.map_values(
                            rotated(
                                who.session_id,
                                fingerprint(fresh@),
                                (now + old(state).cfg.ttl()) as i64,
                            ),
                        )
                    },
                    Err(e) => e is EntropyExhausted && final(state).same_sessions(old(state)),
                },
                Resolution::Valid(who) => {
                    &&& r matches Ok((auth, action))
                    &&& auth@ == Some(who)
                    &&& action@ == TokenActionView::DoNothing
                    &&& final(state).same_sessions(old(state))
                },
            },
    {
        let decision = MaybeAuth::decision_for(state, token, now);
        MaybeAuth::carry_out(state, decision, now)
    }

    /// The authenticated user, where there is one and nothing stands
    /// between them and their account.
    pub fn user(&self) -> (user: Option<&User>)
        ensures
            match user {
                Some(u) => self@ matches Some(auth) && auth.user_state.spec_is_ready() && u@
                    == auth.user,
                None => self@ matches Some(auth) ==> !auth.user_state.spec_is_ready(),
            },
    {
        match self {
            MaybeAuth::Authenticated(auth) => {
                if auth.user_state.is_ready() {
                    Some(&auth.user)
                } else {
                    None
                }
            },
            MaybeAuth::Unauthenticated => None,
        }
    }

    /// The authenticated user, or the authorization failure that says why
    /// there is none: not authenticated, or authenticated with something
    /// still to do. A suspended user counts as not authenticated.
    pub fn require(self) -> (r: Result<Auth, AppError>)
        ensures
            match self@ {
                None => r matches Err(AppError::Auth(AuthError::NotAuthenticated)),
                Some(auth) => if auth.user_state.is_suspended {
                    r matches Err(AppError::Auth(AuthError::NotAuthenticated))
                } else if auth.user_state.require_email_verification {
                    r matches Err(AppError::Auth(AuthError::EmailNotVerified))
                } else if auth.user_state.require_password_change {
                    r matches Err(AppError::Auth(AuthError::RequirePasswordChange))
                } else {
                    r matches Ok(a) && a@ == auth
                },
            },
    {
        match self {
            MaybeAuth::Unauthenticated => Err(AppError::Auth(AuthError::NotAuthenticated)),
            MaybeAuth::Authenticated(auth) => {
                if auth.user_state.is_suspended {
                    Err(AppError::Auth(AuthError::NotAuthenticated))
                } else if auth.user_state.require_email_verification {
                    Err(AppError::Auth(AuthError::EmailNotVerified))
                } else if auth.user_state.require_password_change {
                    Err(AppError::Auth(AuthError::RequirePasswordChange))
                } else {
                    Ok(auth)
                }
            },
        }
    }
}

} // verus!
