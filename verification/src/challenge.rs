use crate::result::StoreError;
use crate::table::{
    every, lemma_filter_every, lemma_filter_pairs, lookup, pairwise, position, retain, views, Row,
};
use vstd::prelude::*;

verus! {

/// What completing a challenge authorizes.
#[derive(Debug, Clone, Copy, PartialEq, Eq, Structural)]
pub enum Challenge {
    /// The user is logged in.
    LogIn,
    /// The user may choose a new password.
    ResetPassword,
    /// The user's email address counts as verified.
    VerifyNewUser,
    /// Something that the embedding application defines. Its payload is
    /// carried and never read.
    Custom,
}

/// A one-time code sent by email. The code itself is never kept: the row
/// holds its slow digest.
#[derive(Debug)]
pub struct ChallengeData {
    pub id: i64,
    pub user_id: i64,
    pub challenge: Challenge,
    pub payload: String,
    pub code_hash: String,
    /// The moment from which the code no longer counts, in seconds since
    /// the epoch.
    pub expires: i64,
}

/// A challenge as contracts see it.
pub struct ChallengeView {
    pub id: i64,
    pub user_id: i64,
    pub challenge: Challenge,
    pub payload: Seq<char>,
    pub code_hash: Seq<char>,
    pub expires: i64,
}

impl View for ChallengeData {
    type V = ChallengeView;

    open spec fn view(&self) -> ChallengeView {
        ChallengeView {
            id: self.id,
            user_id: self.user_id,
            challenge: self.challenge,
            payload: self.payload@,
            code_hash: self.code_hash@,
            expires: self.expires,
        }
    }
}

impl Row for ChallengeData {
    fn duplicate(&self) -> (copy: ChallengeData) {
        ChallengeData {
            id: self.id,
            user_id: self.user_id,
            challenge: self.challenge,
            payload: self.payload.clone(),
            code_hash: self.code_hash.clone(),
            expires: self.expires,
        }
    }
}

/// The rows with this id.
pub open spec fn with_challenge_id(id: i64) -> spec_fn(ChallengeView) -> bool {
    |c: ChallengeView| c.id == id
}

/// The rows with another id.
pub open spec fn without_challenge_id(id: i64) -> spec_fn(ChallengeView) -> bool {
    |c: ChallengeView| c.id != id
}

/// The rows that have not expired at `now`. A challenge whose expiry is
/// `now` itself has expired.
pub open spec fn pending_at(now: i64) -> spec_fn(ChallengeView) -> bool {
    |c: ChallengeView| c.expires > now
}

/// The invariant of the challenge table: ids are unique, positive and below
/// the next id to hand out.
pub open spec fn challenges_wf(rows: Seq<ChallengeView>, next_id: i64) -> bool {
    &&& next_id >= 1
    &&& pairwise(rows, |a: ChallengeView, b: ChallengeView| a.id != b.id)
    &&& every(rows, |c: ChallengeView| 1 <= c.id < next_id)
}

/// Removing rows keeps the invariant of the challenge table.
pub proof fn lemma_filter_keeps_challenges_wf(rows: Seq<ChallengeView>, next_id: i64, cond: spec_fn(ChallengeView) -> bool)
    requires
        challenges_wf(rows, next_id),
    ensures
        challenges_wf(rows.filter(cond), next_id),
{
    lemma_filter_pairs(rows, cond, |a: ChallengeView, b: ChallengeView| a.id != b.id);
    lemma_filter_every(rows, cond, |c: ChallengeView| 1 <= c.id < next_id);
}

/// The table of challenges, in the order in which they were issued.
pub struct ChallengeTable {
    rows: Vec<ChallengeData>,
    next_id: i64,
}

impl View for ChallengeTable {
    type V = Seq<ChallengeView>;

    closed spec fn view(&self) -> Seq<ChallengeView> {
        views(self.rows@)
    }
}

impl ChallengeTable {
    /// The id that the next inserted challenge gets.
    pub closed spec fn next_id(&self) -> i64 {
        self.next_id
    }

    /// The invariant that every operation keeps.
    pub open spec fn wf(&self) -> bool {
        challenges_wf(self@, self.next_id())
    }

    /// An empty table.
    pub fn new() -> (table: ChallengeTable)
        ensures
            table.wf(),
            table@ == Seq::<ChallengeView>::empty(),
            table.next_id() == 1,
    {
        let table = ChallengeTable { rows: Vec::new(), next_id: 1 };
        assert(table@ =~= Seq::<ChallengeView>::empty());
        table
    }

    /// An empty table whose ids start at `first_id`, or `None` where that
    /// is not positive.
    pub fn starting_at(first_id: i64) -> (table: Option<ChallengeTable>)
        ensures
            table is Some <==> first_id >= 1,
            table matches Some(t) ==> {
                &&& t.wf()
                &&& t@ == Seq::<ChallengeView>::empty()
                &&& t.next_id() == first_id
            },
    {
        if first_id < 1 {
            return None;
        }
        let table = ChallengeTable { rows: Vec::new(), next_id: first_id };
        assert(table@ =~= Seq::<ChallengeView>::empty());
        Some(table)
    }

    /// The number of challenges.
    pub fn len(&self) -> (n: usize)
        ensures
            n == self@.len(),
    {
        self.rows.len()
    }

    /// The challenge with this id, if there is one.
    pub fn get_challenge_by_id(&self, challenge_id: i64) -> (found: Option<ChallengeData>)
        ensures
            match found {
                Some(c) => lookup(self@, with_challenge_id(challenge_id)) == Some(c@),
                None => lookup(self@, with_challenge_id(challenge_id)) is None,
            },
    {
        let by_id = |c: &ChallengeData| -> (b: bool)
            ensures
                b == (c.id == challenge_id),
            { c.id == challenge_id };
        match position(&self.rows, by_id, Ghost(with_challenge_id(challenge_id))) {
            Some(i) => Some(self.rows[i].duplicate()),
            None => None,
        }
    }

    /// Adds a challenge and returns its id.
    pub fn insert_challenge(
        &mut self,
        user_id: i64,
        challenge: Challenge,
        payload: &str,
        code_hash: String,
        expires: i64,
    ) -> (r: Result<i64, StoreError>)
        requires
            old(self).wf(),
        ensures
            final(self).wf(),
            match r {
                Ok(id) => {
                    &&& id == old(self).next_id()
                    &&& final(self).next_id() == id + 1
                    &&& final(self)@ == old(self)@.push(
                        ChallengeView {
                            id,
                            user_id,
                            challenge,
                            payload: payload@,
                            code_hash: code_hash@,
                            expires,
                        },
                    )
                },
                Err(e) => {
                    &&& e == StoreError::IdsExhausted
                    &&& old(self).next_id() == i64::MAX
                    &&& final(self)@ == old(self)@
                    &&& final(self).next_id() == old(self).next_id()
                },
            },
    {
        if self.next_id == i64::MAX {
            return Err(StoreError::IdsExhausted);
        }
        let id = self.next_id;
        let row = ChallengeData {
            id,
            user_id,
            challenge,
            payload: payload.to_owned(),
            code_hash,
            expires,
        };
        let ghost added = row@;
        self.next_id = id + 1;
        self.rows.push(row);
        proof {
            assert(self@ =~= old(self)@.push(added));
            assert forall|i: int| 0 <= i < old(self)@.len() implies old(self)@[i].id < id by {
                assert(views(old(self).rows@)[i] == old(self)@[i]);
            }
        }
        Ok(id)
    }

    /// Removes the challenge with this id. Where there is none nothing
    /// changes, and that is no error.
    pub fn delete_challenge_by_id(&mut self, challenge_id: i64)
        requires
            old(self).wf(),
        ensures
            final(self).wf(),
            final(self).next_id() == old(self).next_id(),
            final(self)@ == old(self)@.filter(without_challenge_id(challenge_id)),
    {
        let others = |c: &ChallengeData| -> (b: bool)
            ensures
                b == (c.id != challenge_id),
            { c.id != challenge_id };
        let kept = retain(&self.rows, others, Ghost(without_challenge_id(challenge_id)));
        proof {
            lemma_filter_keeps_challenges_wf(self@, self.next_id, without_challenge_id(challenge_id));
        }
        self.rows = kept;
    }

    /// Removes every challenge that has expired at `now`.
    pub fn delete_expired_challenges(&mut self, now: i64)
        requires
            old(self).wf(),
        ensures
            final(self).wf(),
            final(self).next_id() == old(self).next_id(),
            final(self)@ == old(self)@.filter(pending_at(now)),
    {
        let pending = |c: &ChallengeData| -> (b: bool)
            ensures
                b == (c.expires > now),
            { c.expires > now };
        let kept = retain(&self.rows, pending, Ghost(pending_at(now)));
        proof {
            lemma_filter_keeps_challenges_wf(self@, self.next_id, pending_at(now));
        }
        self.rows = kept;
    }
}

} // verus!
