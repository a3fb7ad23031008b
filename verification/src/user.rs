use crate::result::StoreError;
use crate::table::{
    every, lemma_filter_every, lemma_filter_pairs, lookup, pairwise, position, retain, views, Row,
};
use crate::text::{eq_ignore_ascii_case, same_ignoring_ascii_case};
use vstd::prelude::*;

verus! {

/// An identity record.
#[derive(Debug)]
pub struct User {
    pub id: i64,
    /// Unique among users, whatever the case of its ASCII letters.
    pub email: String,
    pub display_name: String,
    pub is_admin: bool,
}

/// A user as contracts see it.
pub struct UserView {
    pub id: i64,
    pub email: Seq<char>,
    pub display_name: Seq<char>,
    pub is_admin: bool,
}

/// What a user must still do, or may not do, before using the account.
#[derive(Debug, Clone, Copy, PartialEq, Eq, Structural)]
pub struct UserState {
    pub is_suspended: bool,
    pub require_email_verification: bool,
    pub require_password_change: bool,
}

/// A user with the slow digest of their password and their flags.
#[derive(Debug)]
pub struct UserData {
    pub user: User,
    pub password_hash: String,
    pub state: UserState,
}

/// A user's data as contracts see it.
pub struct UserDataView {
    pub user: UserView,
    pub password_hash: Seq<char>,
    pub state: UserState,
}

/// A user with the numbers of today's study.
#[derive(Debug)]
pub struct UserDetails {
    pub user: User,
    pub reviews_due_today: i64,
    pub reviews_done_today: i64,
}

impl View for User {
    type V = UserView;

    open spec fn view(&self) -> UserView {
        UserView {
            id: self.id,
            email: self.email@,
            display_name: self.display_name@,
            is_admin: self.is_admin,
        }
    }
}

impl View for UserData {
    type V = UserDataView;

    open spec fn view(&self) -> UserDataView {
        UserDataView { user: self.user@, password_hash: self.password_hash@, state: self.state }
    }
}

impl Row for User {
    fn duplicate(&self) -> (copy: User) {
        User {
            id: self.id,
            email: self.email.clone(),
            display_name: self.display_name.clone(),
            is_admin: self.is_admin,
        }
    }
}

impl Row for UserData {
    fn duplicate(&self) -> (copy: UserData) {
        UserData {
            user: self.user.duplicate(),
            password_hash: self.password_hash.clone(),
            state: self.state,
        }
    }
}

impl User {
    /// The user's id.
    pub fn id(&self) -> (id: i64)
        ensures
            id == self.id,
    {
        self.id
    }

    /// Gives the user the id that the table assigned on insertion.
    pub fn set_id(&mut self, new_id: i64)
        ensures
            final(self)@ == (UserView { id: new_id, ..old(self)@ }),
    {
        self.id = new_id;
    }
}

impl UserState {
    /// The flags of a user who has just registered and must still verify
    /// their email address.
    pub fn unverified() -> (state: UserState)
        ensures
            state == (UserState {
                is_suspended: false,
                require_email_verification: true,
                require_password_change: false,
            }),
    {
        UserState {
            is_suspended: false,
            require_email_verification: true,
            require_password_change: false,
        }
    }

    pub open spec fn spec_is_ready(self) -> bool {
        !self.is_suspended && !self.require_email_verification && !self.require_password_change
    }

    /// Whether nothing stands between the user and their account.
    pub fn is_ready(&self) -> (ready: bool)
        ensures
            ready == self.spec_is_ready(),
    {
        !self.is_suspended && !self.require_email_verification && !self.require_password_change
    }
}

/// The rows of the user with this id.
pub open spec fn with_user_id(id: i64) -> spec_fn(UserDataView) -> bool {
    |u: UserDataView| u.user.id == id
}

/// The rows of the other users.
pub open spec fn without_user_id(id: i64) -> spec_fn(UserDataView) -> bool {
    |u: UserDataView| u.user.id != id
}

/// The rows whose email is this one, whatever the case of ASCII letters.
pub open spec fn with_email(email: Seq<char>) -> spec_fn(UserDataView) -> bool {
    |u: UserDataView| same_ignoring_ascii_case(u.user.email, email)
}

/// A row with the verification flag cleared where it has this id.
pub open spec fn verified(id: i64) -> spec_fn(UserDataView) -> UserDataView {
    |u: UserDataView|
        if u.user.id == id {
            UserDataView {
                state: UserState { require_email_verification: false, ..u.state },
                ..u
            }
        } else {
            u
        }
}

/// A row with its digest and its change flag replaced where it has this id.
pub open spec fn with_password(id: i64, hash: Seq<char>, then_require_change: bool) -> spec_fn(
    UserDataView,
) -> UserDataView {
    |u: UserDataView|
        if u.user.id == id {
            UserDataView {
                password_hash: hash,
                state: UserState { require_password_change: then_require_change, ..u.state },
                ..u
            }
        } else {
            u
        }
}

/// The invariant of the user table: ids are unique, positive and below the
/// next id to hand out, and no two emails differ only by case.
pub open spec fn users_wf(rows: Seq<UserDataView>, next_id: i64) -> bool {
    &&& next_id >= 1
    &&& pairwise(rows, |a: UserDataView, b: UserDataView| a.user.id != b.user.id)
    &&& pairwise(
        rows,
        |a: UserDataView, b: UserDataView| !same_ignoring_ascii_case(a.user.email, b.user.email),
    )
    &&& every(rows, |u: UserDataView| 1 <= u.user.id < next_id)
}

/// Removing rows keeps the invariant of the user table.
pub proof fn lemma_filter_keeps_users_wf(rows: Seq<UserDataView>, next_id: i64, cond: spec_fn(UserDataView) -> bool)
    requires
        users_wf(rows, next_id),
    ensures
        users_wf(rows.filter(cond), next_id),
{
    lemma_filter_pairs(rows, cond, |a: UserDataView, b: UserDataView| a.user.id != b.user.id);
    lemma_filter_pairs(
        rows,
        cond,
        |a: UserDataView, b: UserDataView| !same_ignoring_ascii_case(a.user.email, b.user.email),
    );
    lemma_filter_every(rows, cond, |u: UserDataView| 1 <= u.user.id < next_id);
}

/// Changing what is neither id nor email keeps the invariant of the user
/// table.
pub proof fn lemma_map_keeps_users_wf(rows: Seq<UserDataView>, next_id: i64, change: spec_fn(UserDataView) -> UserDataView)
    requires
        users_wf(rows, next_id),
        forall|u: UserDataView| (#[trigger] change(u)).user == u.user,
    ensures
        users_wf(rows.map_values(change), next_id),
{
    let after = rows.map_values(change);
    assert forall|i: int, j: int| 0 <= i < j < after.len() implies after[i].user.id
        != after[j].user.id && !same_ignoring_ascii_case(
        after[i].user.email,
        after[j].user.email,
    ) by {
        assert(rows[i].user.id != rows[j].user.id);
        assert(!same_ignoring_ascii_case(rows[i].user.email, rows[j].user.email));
    }
    assert forall|i: int| 0 <= i < after.len() implies 1 <= (#[trigger] after[i]).user.id
        < next_id by {
        assert(1 <= rows[i].user.id < next_id);
    }
}

/// The table of users, in the order in which they registered.
pub struct UserTable {
    rows: Vec<UserData>,
    next_id: i64,
}

impl View for UserTable {
    type V = Seq<UserDataView>;

    closed spec fn view(&self) -> Seq<UserDataView> {
        views(self.rows@)
    }
}

impl UserTable {
    /// The id that the next inserted user gets.
    pub closed spec fn next_id(&self) -> i64 {
        self.next_id
    }

    /// The invariant that every operation keeps.
    pub open spec fn wf(&self) -> bool {
        users_wf(self@, self.next_id())
    }

    /// An empty table.
    pub fn new() -> (table: UserTable)
        ensures
            table.wf(),
            table@ == Seq::<UserDataView>::empty(),
            table.next_id() == 1,
    {
        let table = UserTable { rows: Vec::new(), next_id: 1 };
        assert(table@ =~= Seq::<UserDataView>::empty());
        table
    }

    /// An empty table whose ids start at `first_id`, or `None` where that
    /// is not positive.
    pub fn starting_at(first_id: i64) -> (table: Option<UserTable>)
        ensures
            table is Some <==> first_id >= 1,
            table matches Some(t) ==> {
                &&& t.wf()
                &&& t@ == Seq::<UserDataView>::empty()
                &&& t.next_id() == first_id
            },
    {
        if first_id < 1 {
            return None;
        }
        let table = UserTable { rows: Vec::new(), next_id: first_id };
        assert(table@ =~= Seq::<UserDataView>::empty());
        Some(table)
    }

    /// The number of users.
    pub fn len(&self) -> (n: usize)
        ensures
            n == self@.len(),
    {
        self.rows.len()
    }

    /// The user with this id, if there is one.
    pub fn get_user_data_by_id(&self, user_id: i64) -> (found: Option<UserData>)
        ensures
            match found {
                Some(u) => lookup(self@, with_user_id(user_id)) == Some(u@),
                None => lookup(self@, with_user_id(user_id)) is None,
            },
    {
        let by_id = |u: &UserData| -> (b: bool)
            ensures
                b == (u.user.id == user_id),
            { u.user.id == user_id };
        match position(&self.rows, by_id, Ghost(with_user_id(user_id))) {
            Some(i) => Some(self.rows[i].duplicate()),
            None => None,
        }
    }

    /// The user with this email address, if there is one. The case of ASCII
    /// letters does not matter.
    pub fn get_user_data_by_identifier(&self, user_identifier: &str) -> (found: Option<UserData>)
        ensures
            match found {
                Some(u) => lookup(self@, with_email(user_identifier@)) == Some(u@),
                None => lookup(self@, with_email(user_identifier@)) is None,
            },
    {
        let by_email = |u: &UserData| -> (b: bool)
            ensures
                b == same_ignoring_ascii_case(u.user.email@, user_identifier@),
            { eq_ignore_ascii_case(u.user.email.as_str(), user_identifier) };
        match position(&self.rows, by_email, Ghost(with_email(user_identifier@))) {
            Some(i) => Some(self.rows[i].duplicate()),
            None => None,
        }
    }

    /// Adds a user and returns the id that the table gave them; the id in
    /// `data` is not read.
    pub fn insert_user(&mut self, data: &UserData) -> (r: Result<i64, StoreError>)
        requires
            old(self).wf(),
        ensures
            final(self).wf(),
            match r {
                Ok(id) => {
                    &&& lookup(old(self)@, with_email(data@.user.email)) is None
                    &&& id == old(self).next_id()
                    &&& final(self).next_id() == id + 1
                    &&& final(self)@ == old(self)@.push(
                        UserDataView { user: UserView { id, ..data@.user }, ..data@ },
                    )
                },
                Err(StoreError::Duplicate) => {
                    &&& lookup(old(self)@, with_email(data@.user.email)) is Some
                    &&& final(self)@ == old(self)@
                    &&& final(self).next_id() == old(self).next_id()
                },
                Err(StoreError::IdsExhausted) => {
                    &&& lookup(old(self)@, with_email(data@.user.email)) is None
                    &&& old(self).next_id() == i64::MAX
                    &&& final(self)@ == old(self)@
                    &&& final(self).next_id() == old(self).next_id()
                },
            },
    {
        let by_email = |u: &UserData| -> (b: bool)
            ensures
                b == same_ignoring_ascii_case(u.user.email@, data.user.email@),
            { eq_ignore_ascii_case(u.user.email.as_str(), data.user.email.as_str()) };
        if position(&self.rows, by_email, Ghost(with_email(data@.user.email))).is_some() {
            return Err(StoreError::Duplicate);
        }
        if self.next_id == i64::MAX {
            return Err(StoreError::IdsExhausted);
        }
        let id = self.next_id;
        let mut row = data.duplicate();
        row.user.id = id;
        let ghost added = row@;
        self.next_id = id + 1;
        self.rows.push(row);
        proof {
            assert(self@ =~= old(self)@.push(added));
            assert forall|i: int| 0 <= i < old(self)@.len() implies !with_email(added.user.email)(
                old(self)@[i],
            ) && old(self)@[i].user.id < id by {
                assert(views(old(self).rows@)[i] == old(self)@[i]);
            }
        }
        Ok(id)
    }

    fn replace_where(&mut self, user_id: i64, password: Option<(String, bool)>)
        requires
            old(self).wf(),
        ensures
            final(self).wf(),
            final(self).next_id() == old(self).next_id(),
            final(self)@ == old(self)@.map_values(
                match password {
                    Some((hash, then_require_change)) => with_password(
                        user_id,
                        hash@,
                        then_require_change,
                    ),
                    None => verified(user_id),
                },
            ),
    {
        let by_id = |u: &UserData| -> (b: bool)
            ensures
                b == (u.user.id == user_id),
            { u.user.id == user_id };
        let ghost before = self@;
        let ghost change = match &password {
            Some((hash, then_require_change)) => with_password(user_id, hash@, *then_require_change),
            None => verified(user_id),
        };
        proof {
            lemma_map_keeps_users_wf(before, self.next_id, change);
        }
        match position(&self.rows, by_id, Ghost(with_user_id(user_id))) {
            None => {
                proof {
                    assert(before.map_values(change) =~= before);
                }
            },
            Some(at) => {
                let current = self.rows[at].duplicate();
                let row = match password {
                    Some((hash, then_require_change)) => UserData {
                        user: current.user,
                        password_hash: hash,
                        state: UserState {
                            is_suspended: current.state.is_suspended,
                            require_email_verification: current.state.require_email_verification,
                            require_password_change: then_require_change,
                        },
                    },
                    None => UserData {
                        user: current.user,
                        password_hash: current.password_hash,
                        state: UserState {
                            is_suspended: current.state.is_suspended,
                            require_email_verification: false,
                            require_password_change: current.state.require_password_change,
                        },
                    },
                };
                self.rows.set(at, row);
                proof {
                    let after = before.map_values(change);
                    assert forall|k: int| 0 <= k < before.len() implies #[trigger] self@[k]
                        == after[k] by {
                        if k < at {
                            assert(before[k].user.id != before[at as int].user.id);
                        } else if k > at {
                            assert(before[at as int].user.id != before[k].user.id);
                        }
                    }
                    assert(self@ =~= after);
                }
            },
        }
    }

    /// Marks the user with this id as verified. Where there is no such user
    /// nothing changes.
    pub fn verify_user(&mut self, user_id: i64)
        requires
            old(self).wf(),
        ensures
            final(self).wf(),
            final(self).next_id() == old(self).next_id(),
            final(self)@ == old(self)@.map_values(verified(user_id)),
    {
        self.replace_where(user_id, None);
    }

    /// Replaces the stored digest of the user with this id, and records
    /// whether they must choose another password next. Where there is no
    /// such user nothing changes.
    pub fn update_password(&mut self, user_id: i64, password_hash: String, then_require_change: bool)
        requires
            old(self).wf(),
        ensures
            final(self).wf(),
            final(self).next_id() == old(self).next_id(),
            final(self)@ == old(self)@.map_values(
                with_password(user_id, password_hash@, then_require_change),
            ),
    {
        self.replace_where(user_id, Some((password_hash, then_require_change)));
    }

    /// Removes the user with this id. Where there is none nothing changes,
    /// and that is no error.
    pub fn delete_user(&mut self, user_id: i64)
        requires
            old(self).wf(),
        ensures
            final(self).wf(),
            final(self).next_id() == old(self).next_id(),
            final(self)@ == old(self)@.filter(without_user_id(user_id)),
    {
        let others = |u: &UserData| -> (b: bool)
            ensures
                b == (u.user.id != user_id),
            { u.user.id != user_id };
        let kept = retain(&self.rows, others, Ghost(without_user_id(user_id)));
        proof {
            lemma_filter_keeps_users_wf(self@, self.next_id, without_user_id(user_id));
        }
        self.rows = kept;
    }
}

} // verus!
