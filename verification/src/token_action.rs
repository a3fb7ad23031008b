use crate::maybe_auth::MaybeAuth;
use vstd::prelude::*;

verus! {

/// The one change, if any, that a response makes to the client's session
/// cookie.
#[derive(Debug)]
pub enum AuthTokenAction {
    /// Set the cookie to this raw token.
    Issue(String),
    /// Clear the cookie.
    Revoke,
    /// Leave the cookie as it is.
    DoNothing,
}

/// A token action as contracts see it.
pub enum TokenActionView {
    Issue(Seq<char>),
    Revoke,
    DoNothing,
}

impl View for AuthTokenAction {
    type V = TokenActionView;

    open spec fn view(&self) -> TokenActionView {
        match self {
            AuthTokenAction::Issue(token) => TokenActionView::Issue(token@),
            AuthTokenAction::Revoke => TokenActionView::Revoke,
            AuthTokenAction::DoNothing => TokenActionView::DoNothing,
        }
    }
}

/// What a request carries from the resolver to its handlers and back: who
/// makes it, and the token action that a handler asked for, if one did.
#[derive(Debug)]
pub struct RequestContext {
    pub auth: MaybeAuth,
    pub token_action: Option<AuthTokenAction>,
}

/// The token action that a request asks for, as contracts see it.
pub open spec fn pending(request: &RequestContext) -> Option<TokenActionView> {
    match request.token_action {
        Some(action) => Some(action@),
        None => None,
    }
}

/// The action that a response carries: the one that a handler asked for
/// where there is one, else the one that authentication implied. An
/// explicit instruction always wins over the implicit one.
pub open spec fn effective(explicit: Option<TokenActionView>, implicit: TokenActionView) -> TokenActionView {
    match explicit {
        Some(action) => action,
        None => implicit,
    }
}

impl RequestContext {
    /// The context of a request as authentication leaves it: no handler has
    /// asked for anything yet.
    pub fn new(auth: MaybeAuth) -> (request: RequestContext)
        ensures
            request.auth == auth,
            request.token_action is None,
    {
        RequestContext { auth, token_action: None }
    }
}

impl AuthTokenAction {
    /// Asks for this action on the response to a request. A later call
    /// replaces an earlier one.
    pub fn insert_into_request(self, request: &mut RequestContext)
        ensures
            pending(final(request)) == Some(self@),
            final(request).auth == old(request).auth,
    {
        request.token_action = Some(self);
    }

    /// Takes the action for the response out of a request: the one that a
    /// handler asked for, or `otherwise` where none did. This is called
    /// once, when the response is made.
    pub fn take_from_request(request: &mut RequestContext, otherwise: AuthTokenAction) -> (action:
        AuthTokenAction)
        ensures
            action@ == effective(pending(old(request)), otherwise@),
            pending(final(request)) is None,
            final(request).auth == old(request).auth,
    {
        match request.token_action.take() {
            Some(action) => action,
            None => otherwise,
        }
    }
}

/// An explicit instruction wins: whatever authentication implied, the
/// action taken from a request is the last one that was inserted into it.
pub proof fn lemma_explicit_action_wins(explicit: TokenActionView, implicit: TokenActionView)
    ensures
        effective(Some(explicit), implicit) == explicit,
        effective(None, implicit) == implicit,
{
}

} // verus!
