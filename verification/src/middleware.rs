use crate::config::Config;
use crate::hashing::{fingerprint, is_token, SESSION_TOKEN_BYTES};
use crate::maybe_auth::{resolution, Decision, MaybeAuth, Resolution};
use crate::result::{AppError, BAD_REQUEST};
use crate::session::{rotated, with_hash, without_id};
use crate::state::State;
use crate::table::lookup;
use crate::text::{starts_with, str_eq};
use crate::token_action::{
    effective, pending, AuthTokenAction, RequestContext, TokenActionView,
};
use vstd::prelude::*;

verus! {

/// Whether a request method is safe: one that only reads. These are
/// `GET`, `HEAD`, `OPTIONS` and `TRACE`; every other method may change
/// state.
pub open spec fn safe_method(method: Seq<char>) -> bool {
    method == "GET"@ || method == "HEAD"@ || method == "OPTIONS"@ || method == "TRACE"@
}

/// Whether the headers of a request fail to show that it comes from the
/// application's own pages: the `Referer` header is missing or does not
/// begin with the application's origin, or the `Sec-Fetch-Site` header says
/// `cross-site`.
pub open spec fn bad_request(
    referer: Option<Seq<char>>,
    sec_fetch_site: Option<Seq<char>>,
    expected_origin: Seq<char>,
) -> bool {
    ||| referer is None
    ||| !expected_origin.is_prefix_of(referer->0)
    ||| sec_fetch_site == Some("cross-site"@)
}

/// Whether a request method is safe.
pub fn is_safe_method(method: &str) -> (safe: bool)
    ensures
        safe == safe_method(method@),
{
    str_eq(method, "GET") || str_eq(method, "HEAD") || str_eq(method, "OPTIONS") || str_eq(
        method,
        "TRACE",
    )
}

/// Whether the headers of a request fail to show that it comes from the
/// application's own pages. A header that is not text counts as missing.
pub fn is_bad_request(referer: Option<&str>, sec_fetch_site: Option<&str>, expected_origin: &str) -> (bad:
    bool)
    ensures
        bad == bad_request(
            match referer {
                Some(r) => Some(r@),
                None => None,
            },
            match sec_fetch_site {
                Some(s) => Some(s@),
                None => None,
            },
            expected_origin@,
        ),
{
    let from_here = match referer {
        Some(r) => starts_with(r, expected_origin),
        None => false,
    };
    if !from_here {
        return true;
    }
    match sec_fetch_site {
        Some(s) => str_eq(s, "cross-site"),
        None => false,
    }
}

/// Guards against cross-site requests. A request with a safe method
/// passes. Any other passes only with headers that show it to come from
/// the application's own pages, and is refused as `400 Bad Request`
/// otherwise. This runs before authentication, so that a refused request
/// never reaches the sessions.
pub fn csrf_middleware(
    method: &str,
    referer: Option<&str>,
    sec_fetch_site: Option<&str>,
    expected_origin: &str,
) -> (r: Result<(), AppError>)
    ensures
        match r {
            Ok(()) => safe_method(method@) || !bad_request(
                match referer {
                    Some(r) => Some(r@),
                    None => None,
                },
                match sec_fetch_site {
                    Some(s) => Some(s@),
                    None => None,
                },
                expected_origin@,
            ),
            Err(e) => {
                &&& e == AppError::Status(BAD_REQUEST)
                &&& !safe_method(method@)
                &&& bad_request(
                    match referer {
                        Some(r) => Some(r@),
                        None => None,
                    },
                    match sec_fetch_site {
                        Some(s) => Some(s@),
                        None => None,
                    },
                    expected_origin@,
                )
            },
        },
{
    if !is_safe_method(method) && is_bad_request(referer, sec_fetch_site, expected_origin) {
        return Err(AppError::Status(BAD_REQUEST));
    }
    Ok(())
}

/// Authenticates a request by its session cookie, at `now`, before the
/// handler runs. The result is the context that the handler gets, and the
/// token action that authentication implies.
///
/// Without a cookie the request is unauthenticated and nothing is done to
/// the cookie. With one, the token is resolved as
/// [`MaybeAuth::authenticate_by_session_token`] does, at any moment: where
/// the clock stands within one lifetime of the last moment that can be
/// told, no later expiry can be, and a session in its renewal window is
/// accepted as it is.
pub fn auth_middleware(state: &mut State, cookie: Option<&str>, now: i64) -> (r: Result<
    (RequestContext, AuthTokenAction),
    AppError,
>)
    requires
        old(state).wf(),
    ensures
        final(state).wf(),
        final(state).same_users(old(state)),
        final(state).same_challenges(old(state)),
        final(state).sessions.next_id() == old(state).sessions.next_id(),
        r matches Ok((request, action)) ==> pending(&request) is None,
        match cookie {
            None => {
                &&& r matches Ok((request, action))
                &&& request.auth@ is None
                &&& action@ == TokenActionView::DoNothing
                &&& final(state).same_sessions(old(state))
            },
            Some(token) => match resolution(
                old(state).users@,
                old(state).sessions@,
                token@,
                now,
                old(state).cfg.threshold(),
            ) {
                Resolution::NotFound => {
                    &&& r matches Ok((request, action))
                    &&& request.auth@ is None
                    &&& action@ == TokenActionView::Revoke
                    &&& final(state).same_sessions(old(state))
                },
                Resolution::Expired(s) => {
                    &&& r matches Ok((request, action))
                    &&& request.auth@ is None
                    &&& action@ == TokenActionView::Revoke
                    &&& final(state).sessions@ == old(state).sessions@.filter(without_id(s.id))
                },
                Resolution::Renew(who) => if now + old(state).cfg.ttl() <= i64::MAX {
                    match r {
                        Ok((request, action)) => {
                            &&& request.auth@ == Some(who)
                            &&& action matches AuthTokenAction::Issue(fresh)
                            &&& is_token(fresh@, SESSION_TOKEN_BYTES as nat)
                            &&& lookup(old(state).sessions@, with_hash(fingerprint(fresh@)))
                                is None
                            &&& final(state).sessions@ == old(state).sessions@.map_values(
                                rotated(
                                    who.session_id,
                                    fingerprint(fresh@),
                                    (now + old(state).cfg.ttl()) as i64,
                                ),
                            )
                        },
                        Err(e) => e is EntropyExhausted && final(state).same_sessions(old(state)),
                    }
                } else {
                    &&& r matches Ok((request, action))
                    &&& request.auth@ == Some(who)
                    &&& action@ == TokenActionView::DoNothing
                    &&& final(state).same_sessions(old(state))
                },
                Resolution::Valid(who) => {
                    &&& r matches Ok((request, action))
                    &&& request.auth@ == Some(who)
                    &&& action@ == TokenActionView::DoNothing
                    &&& final(state).same_sessions(old(state))
                },
            },
        },
{
    let (auth, token_action) = match cookie {
        Some(token) => {
            let resolved = if now.checked_add(state.cfg.session_ttl_seconds()).is_some() {
                MaybeAuth::authenticate_by_session_token(state, token, now)
            } else {
                let decision = match MaybeAuth::decision_for(state, token, now) {
                    Decision::Renew(auth) => Decision::Accept(auth),
                    other => other,
                };
                MaybeAuth::carry_out(state, decision, now)
            };
            match resolved {
                Ok(pair) => pair,
                Err(e) => {
                    return Err(e);
                },
            }
        },
        None => (MaybeAuth::Unauthenticated, AuthTokenAction::DoNothing),
    };
    Ok((RequestContext::new(auth), token_action))
}

/// The session cookie that a response sets.
#[derive(Debug)]
pub struct SessionCookie {
    pub name: String,
    /// The raw token, or nothing where the cookie is being cleared.
    pub value: String,
    /// Hidden from scripts in the page.
    pub http_only: bool,
    /// Sent over encrypted connections only.
    pub secure: bool,
    /// Sent with requests from the same site only.
    pub same_site_strict: bool,
    /// The cookie's lifetime: that of a session, or zero where the cookie
    /// is being cleared.
    pub max_age_seconds: i64,
    /// Whether the cookie is being cleared.
    pub removal: bool,
}

/// A session cookie as contracts see it.
pub struct SessionCookieView {
    pub name: Seq<char>,
    pub value: Seq<char>,
    pub http_only: bool,
    pub secure: bool,
    pub same_site_strict: bool,
    pub max_age_seconds: i64,
    pub removal: bool,
}

impl View for SessionCookie {
    type V = SessionCookieView;

    open spec fn view(&self) -> SessionCookieView {
        SessionCookieView {
            name: self.name@,
            value: self.value@,
            http_only: self.http_only,
            secure: self.secure,
            same_site_strict: self.same_site_strict,
            max_age_seconds: self.max_age_seconds,
            removal: self.removal,
        }
    }
}

/// What authentication adds to a response.
#[derive(Debug)]
pub struct ResponseHead {
    /// The value of the `Cache-Control` header, which keeps caches from
    /// storing the session cookie.
    pub cache_control: String,
    pub cookie: Option<SessionCookie>,
}

/// The cookie that carries out a token action, if the action calls for
/// one. An issued cookie lives as long as a session; every cookie is
/// HTTP-only, secure and same-site strict.
pub open spec fn cookie_for(cfg: &Config, action: TokenActionView) -> Option<SessionCookieView> {
    match action {
        TokenActionView::Issue(token) => Some(
            SessionCookieView {
                name: cfg.session_token_cookie_name@,
                value: token,
                http_only: true,
                secure: true,
                same_site_strict: true,
                max_age_seconds: cfg.ttl() as i64,
                removal: false,
            },
        ),
        TokenActionView::Revoke => Some(
            SessionCookieView {
                name: cfg.session_token_cookie_name@,
                value: Seq::<char>::empty(),
                http_only: true,
                secure: true,
                same_site_strict: true,
                max_age_seconds: 0,
                removal: true,
            },
        ),
        TokenActionView::DoNothing => None,
    }
}

/// Decides what authentication adds to the response, after the handler has
/// run. The token action is the one that the handler asked for, where it
/// asked for one, and else the one that authentication implied: an
/// explicit instruction wins.
pub fn finish_response(cfg: &Config, request: &mut RequestContext, token_action: AuthTokenAction) -> (head:
    ResponseHead)
    requires
        cfg.valid(),
    ensures
        head.cache_control@ == "no-cache=\"Set-Cookie\""@,
        match head.cookie {
            Some(cookie) => Some(cookie@),
            None => None,
        } == cookie_for(cfg, effective(pending(old(request)), token_action@)),
        pending(final(request)) is None,
        final(request).auth == old(request).auth,
{
    proof {
        reveal_strlit("");
    }
    let cookie = match AuthTokenAction::take_from_request(request, token_action) {
        AuthTokenAction::Issue(token) => Some(
            SessionCookie {
                name: cfg.session_token_cookie_name.clone(),
                value: token,
                http_only: true,
                secure: true,
                same_site_strict: true,
                max_age_seconds: cfg.session_ttl_seconds(),
                removal: false,
            },
        ),
        AuthTokenAction::Revoke => {
            let value = "".to_owned();
            assert(value@ =~= Seq::<char>::empty());
            Some(
                SessionCookie {
                    name: cfg.session_token_cookie_name.clone(),
                    value,
                    http_only: true,
                    secure: true,
                    same_site_strict: true,
                    max_age_seconds: 0,
                    removal: true,
                },
            )
        },
        AuthTokenAction::DoNothing => None,
    };
    ResponseHead { cache_control: "no-cache=\"Set-Cookie\"".to_owned(), cookie }
}

} // verus!
