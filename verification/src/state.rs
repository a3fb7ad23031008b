use crate::challenge::{pending_at, ChallengeTable};
use crate::config::Config;
use crate::session::{live_at, SessionTable};
use crate::user::UserTable;
use vstd::prelude::*;

verus! {

/// The state of the authentication core: the three tables and the
/// configuration.
pub struct State {
    pub users: UserTable,
    pub sessions: SessionTable,
    pub challenges: ChallengeTable,
    pub cfg: Config,
}

impl State {
    /// The invariant that every operation keeps: each table's own, and a
    /// configuration that makes sense.
    pub open spec fn wf(&self) -> bool {
        &&& self.users.wf()
        &&& self.sessions.wf()
        &&& self.challenges.wf()
        &&& self.cfg.valid()
    }

    /// Whether the users and the configuration are those of `before`.
    pub open spec fn same_users(&self, before: &State) -> bool {
        &&& self.users@ == before.users@
        &&& self.users.next_id() == before.users.next_id()
        &&& self.cfg == before.cfg
    }

    /// Whether the sessions are those of `before`.
    pub open spec fn same_sessions(&self, before: &State) -> bool {
        &&& self.sessions@ == before.sessions@
        &&& self.sessions.next_id() == before.sessions.next_id()
    }

    /// Whether the challenges are those of `before`.
    pub open spec fn same_challenges(&self, before: &State) -> bool {
        &&& self.challenges@ == before.challenges@
        &&& self.challenges.next_id() == before.challenges.next_id()
    }

    /// A state with empty tables, or `None` where the configuration makes
    /// no sense.
    pub fn new(cfg: Config) -> (state: Option<State>)
        ensures
            state is Some <==> cfg.valid(),
            state matches Some(s) ==> {
                &&& s.wf()
                &&& s.cfg == cfg
                &&& s.users@.len() == 0 && s.users.next_id() == 1
                &&& s.sessions@.len() == 0 && s.sessions.next_id() == 1
                &&& s.challenges@.len() == 0 && s.challenges.next_id() == 1
            },
    {
        if !cfg.is_valid() {
            return None;
        }
        Some(
            State {
                users: UserTable::new(),
                sessions: SessionTable::new(),
                challenges: ChallengeTable::new(),
                cfg,
            },
        )
    }

    /// Deletes the sessions that have expired at `now`.
    pub fn delete_all_expired_sessions(&mut self, now: i64)
        requires
            old(self).wf(),
        ensures
            final(self).wf(),
            final(self).same_users(old(self)),
            final(self).same_challenges(old(self)),
            final(self).sessions.next_id() == old(self).sessions.next_id(),
            final(self).sessions@ == old(self).sessions@.filter(live_at(now)),
    {
        self.sessions.delete_all_expired_sessions(now);
    }

    /// Deletes the challenges that have expired at `now`.
    pub fn delete_expired_challenges(&mut self, now: i64)
        requires
            old(self).wf(),
        ensures
            final(self).wf(),
            final(self).same_users(old(self)),
            final(self).same_sessions(old(self)),
            final(self).challenges.next_id() == old(self).challenges.next_id(),
            final(self).challenges@ == old(self).challenges@.filter(pending_at(now)),
    {
        self.challenges.delete_expired_challenges(now);
    }

    /// The lifetime of a session in hours.
    pub fn session_expire_after_hours(&self) -> (hours: i64)
        requires
            self.cfg.valid(),
        ensures
            hours == 24 * self.cfg.session_duration_days,
    {
        24 * self.cfg.session_duration_days
    }

    /// The renewal threshold of a session in hours.
    pub fn session_renew_after_hours(&self) -> (hours: i64)
        requires
            self.cfg.valid(),
        ensures
            hours == 24 * self.cfg.session_renew_after_days,
    {
        24 * self.cfg.session_renew_after_days
    }

    /// The name of the cookie that carries the session token.
    pub fn session_token_cookie_name(&self) -> (name: &str)
        ensures
            name@ == self.cfg.session_token_cookie_name@,
    {
        self.cfg.session_token_cookie_name.as_str()
    }
}

} // verus!
