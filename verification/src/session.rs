use crate::config::Config;
use crate::hashing::{fingerprint, is_token, token_hash, SESSION_TOKEN_BYTES};
use crate::result::{AppError, StoreError};
use crate::state::State;
use crate::table::{
    every, lemma_filter_every, lemma_filter_pairs, lemma_lookup_some, lookup, pairwise, position,
    retain, views, Row,
};
use crate::text::str_eq;
use crate::token::{generate_session_token, may_answer, TOKEN_GENERATOR_MAX_RETRIES};
use vstd::prelude::*;

verus! {

/// An active login. The raw token is never kept: the row holds its
/// fingerprint.
#[derive(Debug)]
pub struct Session {
    pub id: i64,
    pub user_id: i64,
    pub token_hash: String,
    /// The moment from which the session no longer counts, in seconds since
    /// the epoch.
    pub expires: i64,
}

/// A session as contracts see it.
pub struct SessionView {
    pub id: i64,
    pub user_id: i64,
    pub token_hash: Seq<char>,
    pub expires: i64,
}

impl View for Session {
    type V = SessionView;

    open spec fn view(&self) -> SessionView {
        SessionView {
            id: self.id,
            user_id: self.user_id,
            token_hash: self.token_hash@,
            expires: self.expires,
        }
    }
}

impl Row for Session {
    fn duplicate(&self) -> (copy: Session) {
        Session {
            id: self.id,
            user_id: self.user_id,
            token_hash: self.token_hash.clone(),
            expires: self.expires,
        }
    }
}

/// The rows with this id.
pub open spec fn with_id(id: i64) -> spec_fn(SessionView) -> bool {
    |s: SessionView| s.id == id
}

/// The rows with another id.
pub open spec fn without_id(id: i64) -> spec_fn(SessionView) -> bool {
    |s: SessionView| s.id != id
}

/// The rows with this fingerprint.
pub open spec fn with_hash(hash: Seq<char>) -> spec_fn(SessionView) -> bool {
    |s: SessionView| s.token_hash == hash
}

/// The rows with another fingerprint.
pub open spec fn without_hash(hash: Seq<char>) -> spec_fn(SessionView) -> bool {
    |s: SessionView| s.token_hash != hash
}

/// The rows that have not expired at `now`. A session whose expiry is
/// `now` itself has expired.
pub open spec fn live_at(now: i64) -> spec_fn(SessionView) -> bool {
    |s: SessionView| s.expires > now
}

/// A row with its fingerprint and expiry replaced where it has this id, and
/// as it was where it has another.
pub open spec fn rotated(id: i64, hash: Seq<char>, expires: i64) -> spec_fn(SessionView) -> SessionView {
    |s: SessionView|
        if s.id == id {
            SessionView { token_hash: hash, expires: expires, ..s }
        } else {
            s
        }
}

/// The invariant of the session table: ids are unique, positive and below
/// the next id to hand out, and no fingerprint occurs twice.
pub open spec fn sessions_wf(rows: Seq<SessionView>, next_id: i64) -> bool {
    &&& next_id >= 1
    &&& pairwise(rows, |a: SessionView, b: SessionView| a.id != b.id)
    &&& pairwise(rows, |a: SessionView, b: SessionView| a.token_hash != b.token_hash)
    &&& every(rows, |s: SessionView| 1 <= s.id < next_id)
}

/// The table of sessions, in the order in which they began.
pub struct SessionTable {
    rows: Vec<Session>,
    next_id: i64,
}

impl View for SessionTable {
    type V = Seq<SessionView>;

    closed spec fn view(&self) -> Seq<SessionView> {
        views(self.rows@)
    }
}

impl SessionTable {
    /// The id that the next inserted session gets.
    pub closed spec fn next_id(&self) -> i64 {
        self.next_id
    }

    /// The invariant that every operation keeps.
    pub open spec fn wf(&self) -> bool {
        sessions_wf(self@, self.next_id())
    }

    /// An empty table.
    pub fn new() -> (table: SessionTable)
        ensures
            table.wf(),
            table@ == Seq::<SessionView>::empty(),
            table.next_id() == 1,
    {
        let table = SessionTable { rows: Vec::new(), next_id: 1 };
        assert(table@ =~= Seq::<SessionView>::empty());
        table
    }

    /// An empty table whose ids start at `first_id`, or `None` where that
    /// is not positive.
    pub fn starting_at(first_id: i64) -> (table: Option<SessionTable>)
        ensures
            table is Some <==> first_id >= 1,
            table matches Some(t) ==> {
                &&& t.wf()
                &&& t@ == Seq::<SessionView>::empty()
                &&& t.next_id() == first_id
            },
    {
        if first_id < 1 {
            return None;
        }
        let table = SessionTable { rows: Vec::new(), next_id: first_id };
        assert(table@ =~= Seq::<SessionView>::empty());
        Some(table)
    }

    /// The number of sessions.
    pub fn len(&self) -> (n: usize)
        ensures
            n == self@.len(),
    {
        self.rows.len()
    }

    /// The session with this id, if there is one.
    pub fn get_session_by_id(&self, session_id: i64) -> (found: Option<Session>)
        ensures
            match found {
                Some(s) => lookup(self@, with_id(session_id)) == Some(s@),
                None => lookup(self@, with_id(session_id)) is None,
            },
    {
        let by_id = |s: &Session| -> (b: bool)
            ensures
                b == (s.id == session_id),
            { s.id == session_id };
        match position(&self.rows, by_id, Ghost(with_id(session_id))) {
            Some(i) => Some(self.rows[i].duplicate()),
            None => None,
        }
    }

    /// The session with this fingerprint, if there is one.
    pub fn get_session_by_hash(&self, token_hash: &str) -> (found: Option<Session>)
        ensures
            match found {
                Some(s) => lookup(self@, with_hash(token_hash@)) == Some(s@),
                None => lookup(self@, with_hash(token_hash@)) is None,
            },
    {
        let by_hash = |s: &Session| -> (b: bool)
            ensures
                b == (s.token_hash@ == token_hash@),
            { str_eq(s.token_hash.as_str(), token_hash) };
        match position(&self.rows, by_hash, Ghost(with_hash(token_hash@))) {
            Some(i) => Some(self.rows[i].duplicate()),
            None => None,
        }
    }

    /// Whether no session has this fingerprint yet.
    pub fn hash_is_fresh(&self, token_hash: &str) -> (fresh: bool)
        ensures
            fresh == lookup(self@, with_hash(token_hash@)) is None,
    {
        self.get_session_by_hash(token_hash).is_none()
    }

    /// Adds a session and returns its id.
    ///
    /// The fingerprint must be new to the table: this is the uniqueness
    /// constraint, and it holds whatever the generator checked before.
    pub fn insert_session(&mut self, user_id: i64, token_hash: String, expires: i64) -> (r: Result<i64, StoreError>)
        requires
            old(self).wf(),
        ensures
            final(self).wf(),
            match r {
                Ok(id) => {
                    &&& lookup(old(self)@, with_hash(token_hash@)) is None
                    &&& id == old(self).next_id()
                    &&& final(self).next_id() == id + 1
                    &&& final(self)@ == old(self)@.push(
                        SessionView { id, user_id, token_hash: token_hash@, expires },
                    )
                },
                Err(StoreError::Duplicate) => {
                    &&& lookup(old(self)@, with_hash(token_hash@)) is Some
                    &&& final(self)@ == old(self)@
                    &&& final(self).next_id() == old(self).next_id()
                },
                Err(StoreError::IdsExhausted) => {
                    &&& lookup(old(self)@, with_hash(token_hash@)) is None
                    &&& old(self).next_id() == i64::MAX
                    &&& final(self)@ == old(self)@
                    &&& final(self).next_id() == old(self).next_id()
                },
            },
    {
        let by_hash = |s: &Session| -> (b: bool)
            ensures
                b == (s.token_hash@ == token_hash@),
            { str_eq(s.token_hash.as_str(), token_hash.as_str()) };
        if position(&self.rows, by_hash, Ghost(with_hash(token_hash@))).is_some() {
            return Err(StoreError::Duplicate);
        }
        if self.next_id == i64::MAX {
            return Err(StoreError::IdsExhausted);
        }
        let id = self.next_id;
        let ghost row = SessionView { id, user_id, token_hash: token_hash@, expires };
        self.next_id = id + 1;
        self.rows.push(Session { id, user_id, token_hash, expires });
        proof {
            assert(self@ =~= old(self)@.push(row));
            assert forall|i: int| 0 <= i < old(self)@.len() implies !with_hash(row.token_hash)(
                old(self)@[i],
            ) && old(self)@[i].id < id by {
                assert(views(old(self).rows@)[i] == old(self)@[i]);
            }
        }
        Ok(id)
    }

    /// Replaces the fingerprint and the expiry of the session with this id.
    /// Where there is no such session nothing changes, and that is no error.
    ///
    /// The new fingerprint must not belong to another session.
    pub fn update_session_by_id(&mut self, session_id: i64, new_token_hash: String, expires: i64) -> (r: Result<(), StoreError>)
        requires
            old(self).wf(),
        ensures
            final(self).wf(),
            final(self).next_id() == old(self).next_id(),
            match r {
                Ok(()) => {
                    &&& final(self)@ == old(self)@.map_values(
                        rotated(session_id, new_token_hash@, expires),
                    )
                    &&& lookup(old(self)@, with_id(session_id)) is Some ==> match lookup(
                        old(self)@,
                        with_hash(new_token_hash@),
                    ) {
                        Some(holder) => holder.id == session_id,
                        None => true,
                    }
                },
                Err(e) => {
                    &&& e == StoreError::Duplicate
                    &&& final(self)@ == old(self)@
                    &&& lookup(old(self)@, with_id(session_id)) is Some
                    &&& lookup(old(self)@, with_hash(new_token_hash@)) matches Some(holder)
                    &&& holder.id != session_id
                },
            },
    {
        let by_id = |s: &Session| -> (b: bool)
            ensures
                b == (s.id == session_id),
            { s.id == session_id };
        let by_hash = |s: &Session| -> (b: bool)
            ensures
                b == (s.token_hash@ == new_token_hash@),
            { str_eq(s.token_hash.as_str(), new_token_hash.as_str()) };
        let ghost before = self@;
        match position(&self.rows, by_id, Ghost(with_id(session_id))) {
            None => {
                proof {
                    assert(before.map_values(rotated(session_id, new_token_hash@, expires))
                        =~= before);
                }
                Ok(())
            },
            Some(at) => {
                let holder = position(&self.rows, by_hash, Ghost(with_hash(new_token_hash@)));
                match holder {
                    Some(other) => {
                        if other != at {
                            return Err(StoreError::Duplicate);
                        }
                    },
                    None => {},
                }
                let user_id = self.rows[at].user_id;
                let ghost hash = new_token_hash@;
                self.rows.set(
                    at,
                    Session { id: session_id, user_id, token_hash: new_token_hash, expires },
                );
                proof {
                    let after = before.map_values(rotated(session_id, hash, expires));
                    assert forall|k: int| 0 <= k < before.len() implies #[trigger] self@[k]
                        == after[k] by {
                        if k != at {
                            if k < at {
                                assert(before[k].id != before[at as int].id);
                            } else {
                                assert(before[at as int].id != before[k].id);
                            }
                        }
                    }
                    assert(self@ =~= after);
                    assert forall|i: int, j: int| 0 <= i < j < after.len() implies after[i].id
                        != after[j].id && after[i].token_hash != after[j].token_hash by {
                        assert(before[i].id != before[j].id);
                        assert(before[i].token_hash != before[j].token_hash);
                        if i == at && before[j].token_hash == hash {
                            assert(with_hash(hash)(before[j]));
                        }
                        if j == at && before[i].token_hash == hash {
                            assert(with_hash(hash)(before[i]));
                        }
                    }
                    assert forall|i: int| 0 <= i < after.len() implies 1 <= (#[trigger] after[i]).id
                        < self.next_id by {
                        assert(1 <= before[i].id < self.next_id);
                    }
                }
                Ok(())
            },
        }
    }

    /// Removes the session with this id. Where there is none nothing
    /// changes, and that is no error.
    pub fn delete_session_by_id(&mut self, session_id: i64)
        requires
            old(self).wf(),
        ensures
            final(self).wf(),
            final(self).next_id() == old(self).next_id(),
            final(self)@ == old(self)@.filter(without_id(session_id)),
    {
        let others = |s: &Session| -> (b: bool)
            ensures
                b == (s.id != session_id),
            { s.id != session_id };
        let kept = retain(&self.rows, others, Ghost(without_id(session_id)));
        proof {
            lemma_filter_keeps_wf(self@, self.next_id, without_id(session_id));
        }
        self.rows = kept;
    }

    /// Removes the session with this fingerprint. Where there is none
    /// nothing changes, and that is no error.
    pub fn delete_session_by_hash(&mut self, token_hash: &str)
        requires
            old(self).wf(),
        ensures
            final(self).wf(),
            final(self).next_id() == old(self).next_id(),
            final(self)@ == old(self)@.filter(without_hash(token_hash@)),
    {
        let others = |s: &Session| -> (b: bool)
            ensures
                b == (s.token_hash@ != token_hash@),
            { !str_eq(s.token_hash.as_str(), token_hash) };
        let kept = retain(&self.rows, others, Ghost(without_hash(token_hash@)));
        proof {
            lemma_filter_keeps_wf(self@, self.next_id, without_hash(token_hash@));
        }
        self.rows = kept;
    }

    /// Removes every session that has expired at `now`.
    pub fn delete_all_expired_sessions(&mut self, now: i64)
        requires
            old(self).wf(),
        ensures
            final(self).wf(),
            final(self).next_id() == old(self).next_id(),
            final(self)@ == old(self)@.filter(live_at(now)),
    {
        let live = |s: &Session| -> (b: bool)
            ensures
                b == (s.expires > now),
            { s.expires > now };
        let kept = retain(&self.rows, live, Ghost(live_at(now)));
        proof {
            lemma_filter_keeps_wf(self@, self.next_id, live_at(now));
        }
        self.rows = kept;
    }
}

/// Removing rows keeps the invariant of the session table.
pub proof fn lemma_filter_keeps_wf(rows: Seq<SessionView>, next_id: i64, cond: spec_fn(SessionView) -> bool)
    requires
        sessions_wf(rows, next_id),
    ensures
        sessions_wf(rows.filter(cond), next_id),
{
    lemma_filter_pairs(rows, cond, |a: SessionView, b: SessionView| a.id != b.id);
    lemma_filter_pairs(rows, cond, |a: SessionView, b: SessionView| a.token_hash != b.token_hash);
    lemma_filter_every(rows, cond, |s: SessionView| 1 <= s.id < next_id);
}

/// Whether a session with this expiry has expired at `now`.
pub open spec fn expired(expires: i64, now: i64) -> bool {
    expires <= now
}

/// Whether a session with this expiry is in its renewal window at `now`:
/// what is left of it is no more than the threshold.
pub open spec fn due_for_renewal(expires: i64, now: i64, threshold: int) -> bool {
    expires - now <= threshold
}

/// Whether a session with this expiry has expired at `now`.
pub fn is_expired(expires: i64, now: i64) -> (gone: bool)
    ensures
        gone == expired(expires, now),
{
    expires <= now
}

/// Whether a session with this expiry is to be renewed at `now`.
pub fn should_renew(expires: i64, now: i64, threshold: i64) -> (due: bool)
    ensures
        due == due_for_renewal(expires, now, threshold as int),
{
    (expires as i128) - (now as i128) <= (threshold as i128)
}

/// The expiry of a session that begins or is renewed at `now`.
pub fn get_expiry_time_from_now(cfg: &Config, now: i64) -> (expires: i64)
    requires
        cfg.valid(),
        now + cfg.ttl() <= i64::MAX,
    ensures
        expires == now + cfg.ttl(),
{
    now + cfg.session_ttl_seconds()
}

/// A session token whose fingerprint no session of the table has, and that
/// fingerprint.
///
/// The collision check is a cheap first line; the table's own uniqueness
/// constraint is the authority. The generator gives up only after the table
/// has answered "taken" to every candidate, so never on an empty table.
pub fn generate_new_session_token(sessions: &SessionTable) -> (r: Result<(String, String), AppError>)
    ensures
        match r {
            Ok((token, hash)) => {
                &&& is_token(token@, SESSION_TOKEN_BYTES as nat)
                &&& token@.len() == 24
                &&& hash@ == fingerprint(token@)
                &&& lookup(sessions@, with_hash(hash@)) is None
            },
            Err(e) => e is EntropyExhausted && sessions@.len() > 0,
        },
{
    let is_fresh = |h: &str| -> (fresh: bool)
        ensures
            fresh == lookup(sessions@, with_hash(h@)) is None,
        { sessions.hash_is_fresh(h) };
    let r = generate_session_token(is_fresh);
    proof {
        match &r {
            Ok((token, hash)) => {
                let h = choose|h: &str| h@ == hash@ && call_ensures(is_fresh, (h,), true);
                assert(lookup(sessions@, with_hash(h@)) is None);
            },
            Err(_) => {
                let rejected = choose|rejected: Seq<Seq<char>>|
                    {
                        &&& rejected.len() == TOKEN_GENERATOR_MAX_RETRIES
                        &&& forall|i: int|
                            0 <= i < rejected.len() ==> may_answer(
                                is_fresh,
                                #[trigger] rejected[i],
                                false,
                            )
                    };
                assert(may_answer(is_fresh, rejected[0], false));
                let h = choose|h: &str| h@ == rejected[0] && call_ensures(is_fresh, (h,), false);
                lemma_lookup_some(sessions@, with_hash(h@));
            },
        }
    }
    r
}

impl Session {
    /// Begins a session for a user at `now` and returns its id and the raw
    /// token, which goes to the client and is not kept.
    ///
    /// The new row is the last of the table. It holds the token's
    /// fingerprint, which no earlier row has, and expires one lifetime from
    /// `now`. On an error nothing has changed.
    pub fn begin(state: &mut State, user_id: i64, now: i64) -> (r: Result<(i64, String), AppError>)
        requires
            old(state).wf(),
            now + old(state).cfg.ttl() <= i64::MAX,
        ensures
            final(state).wf(),
            final(state).same_users(old(state)),
            final(state).same_challenges(old(state)),
            match r {
                Ok((id, token)) => {
                    &&& id == old(state).sessions.next_id()
                    &&& final(state).sessions.next_id() == id + 1
                    &&& is_token(token@, SESSION_TOKEN_BYTES as nat)
                    &&& lookup(old(state).sessions@, with_hash(fingerprint(token@))) is None
                    &&& final(state).sessions@ == old(state).sessions@.push(
                        SessionView {
                            id,
                            user_id,
                            token_hash: fingerprint(token@),
                            expires: (now + old(state).cfg.ttl()) as i64,
                        },
                    )
                },
                Err(e) => {
                    &&& final(state).same_sessions(old(state))
                    &&& match e {
                        AppError::EntropyExhausted => old(state).sessions@.len() > 0,
                        AppError::Store(StoreError::IdsExhausted) => old(state).sessions.next_id()
                            == i64::MAX,
                        _ => false,
                    }
                },
            },
    {
        let (token, hash) = match generate_new_session_token(&state.sessions) {
            Ok(pair) => pair,
            Err(e) => {
                return Err(e);
            },
        };
        let expires = get_expiry_time_from_now(&state.cfg, now);
        match state.sessions.insert_session(user_id, hash, expires) {
            Ok(id) => Ok((id, token)),
            Err(e) => Err(AppError::Store(e)),
        }
    }

    /// Begins a session for a user at `now` and returns the raw token. This
    /// is for a successful login.
    pub fn begin_for_user(state: &mut State, user_id: i64, now: i64) -> (r: Result<String, AppError>)
        requires
            old(state).wf(),
            now + old(state).cfg.ttl() <= i64::MAX,
        ensures
            final(state).wf(),
            final(state).same_users(old(state)),
            final(state).same_challenges(old(state)),
            match r {
                Ok(token) => {
                    &&& is_token(token@, SESSION_TOKEN_BYTES as nat)
                    &&& lookup(old(state).sessions@, with_hash(fingerprint(token@))) is None
                    &&& final(state).sessions@ == old(state).sessions@.push(
                        SessionView {
                            id: old(state).sessions.next_id(),
                            user_id,
                            token_hash: fingerprint(token@),
                            expires: (now + old(state).cfg.ttl()) as i64,
                        },
                    )
                },
                Err(e) => {
                    &&& final(state).same_sessions(old(state))
                    &&& match e {
                        AppError::EntropyExhausted => old(state).sessions@.len() > 0,
                        AppError::Store(StoreError::IdsExhausted) => old(state).sessions.next_id()
                            == i64::MAX,
                        _ => false,
                    }
                },
            },
    {
        match Session::begin(state, user_id, now) {
            Ok((_, token)) => Ok(token),
            Err(e) => Err(e),
        }
    }

    /// Renews the session with this id at `now` and returns its new raw
    /// token.
    ///
    /// The row keeps its id and its user. Its fingerprint becomes that of
    /// the new token, which no row had before, the session's own included;
    /// it expires one lifetime from `now`. Where there is no such session
    /// nothing changes. On an error nothing has changed.
    pub fn renew(state: &mut State, session_id: i64, now: i64) -> (r: Result<String, AppError>)
        requires
            old(state).wf(),
            now + old(state).cfg.ttl() <= i64::MAX,
        ensures
            final(state).wf(),
            final(state).same_users(old(state)),
            final(state).same_challenges(old(state)),
            final(state).sessions.next_id() == old(state).sessions.next_id(),
            match r {
                Ok(token) => {
                    &&& is_token(token@, SESSION_TOKEN_BYTES as nat)
                    &&& lookup(old(state).sessions@, with_hash(fingerprint(token@))) is None
                    &&& final(state).sessions@ == old(state).sessions@.map_values(
                        rotated(
                            session_id,
                            fingerprint(token@),
                            (now + old(state).cfg.ttl()) as i64,
                        ),
                    )
                },
                Err(e) => {
                    &&& final(state).same_sessions(old(state))
                    &&& e is EntropyExhausted
                    &&& old(state).sessions@.len() > 0
                },
            },
    {
        let (token, hash) = match generate_new_session_token(&state.sessions) {
            Ok(pair) => pair,
            Err(e) => {
                return Err(e);
            },
        };
        let expires = get_expiry_time_from_now(&state.cfg, now);
        match state.sessions.update_session_by_id(session_id, hash, expires) {
            Ok(()) => Ok(token),
            Err(e) => Err(AppError::Store(e)),
        }
    }

    /// The session that a raw token belongs to, if there is one. Whether it
    /// has expired is for the caller to see.
    pub fn resolve(state: &State, raw_token: &str) -> (found: Option<Session>)
        ensures
            match found {
                Some(s) => lookup(state.sessions@, with_hash(fingerprint(raw_token@))) == Some(s@),
                None => lookup(state.sessions@, with_hash(fingerprint(raw_token@))) is None,
            },
    {
        let hash = token_hash(raw_token);
        state.sessions.get_session_by_hash(hash.as_str())
    }

    /// Revokes the session with this id. Revoking what does not exist is no
    /// error.
    pub fn revoke_by_id(state: &mut State, id: i64)
        requires
            old(state).wf(),
        ensures
            final(state).wf(),
            final(state).same_users(old(state)),
            final(state).same_challenges(old(state)),
            final(state).sessions.next_id() == old(state).sessions.next_id(),
            final(state).sessions@ == old(state).sessions@.filter(without_id(id)),
    {
        state.sessions.delete_session_by_id(id);
    }

    /// Revokes the session that a raw token belongs to. Revoking what does
    /// not exist is no error.
    pub fn revoke_by_token(state: &mut State, raw_token: &str)
        requires
            old(state).wf(),
        ensures
            final(state).wf(),
            final(state).same_users(old(state)),
            final(state).same_challenges(old(state)),
            final(state).sessions.next_id() == old(state).sessions.next_id(),
            final(state).sessions@ == old(state).sessions@.filter(
                without_hash(fingerprint(raw_token@)),
            ),
    {
        let hash = token_hash(raw_token);
        state.sessions.delete_session_by_hash(hash.as_str());
    }

    /// Removes every session that has expired at `now`. This is for a
    /// periodic sweep, not for the path of a request.
    pub fn delete_all_expired(state: &mut State, now: i64)
        requires
            old(state).wf(),
        ensures
            final(state).wf(),
            final(state).same_users(old(state)),
            final(state).same_challenges(old(state)),
            final(state).sessions.next_id() == old(state).sessions.next_id(),
            final(state).sessions@ == old(state).sessions@.filter(live_at(now)),
    {
        state.sessions.delete_all_expired_sessions(now);
    }
}

} // verus!
