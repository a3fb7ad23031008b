use crate::session::{
    due_for_renewal, lemma_filter_keeps_wf, rotated, sessions_wf, with_hash, with_id, without_id,
    SessionView,
};
use crate::table::{
    lemma_filter_member, lemma_lookup_misses, lemma_lookup_none, lemma_lookup_only,
    lemma_lookup_some, lookup,
};
use vstd::prelude::*;

verus! {

/// In a table that keeps its invariant, the session with a given id is
/// the only row with that id, and the only row with its fingerprint.
pub proof fn lemma_session_is_alone(rows: Seq<SessionView>, next_id: i64, s: SessionView)
    requires
        sessions_wf(rows, next_id),
        lookup(rows, with_id(s.id)) == Some(s) || lookup(rows, with_hash(s.token_hash)) == Some(s),
    ensures
        exists|at: int|
            {
                &&& 0 <= at < rows.len()
                &&& #[trigger] rows[at] == s
                &&& forall|k: int|
                    0 <= k < rows.len() && k != at ==> (#[trigger] rows[k]).id != s.id
                        && rows[k].token_hash != s.token_hash
            },
        lookup(rows, with_id(s.id)) == Some(s),
        lookup(rows, with_hash(s.token_hash)) == Some(s),
{
    if lookup(rows, with_id(s.id)) == Some(s) {
        lemma_lookup_some(rows, with_id(s.id));
    } else {
        lemma_lookup_some(rows, with_hash(s.token_hash));
    }
    let at = choose|at: int| 0 <= at < rows.len() && rows[at] == s;
    assert forall|k: int| 0 <= k < rows.len() && k != at implies (#[trigger] rows[k]).id != s.id
        && rows[k].token_hash != s.token_hash by {
        if k < at {
            assert(rows[k].id != rows[at].id && rows[k].token_hash != rows[at].token_hash);
        } else {
            assert(rows[at].id != rows[k].id && rows[at].token_hash != rows[k].token_hash);
        }
    }
    lemma_lookup_only(rows, with_id(s.id), at);
    lemma_lookup_only(rows, with_hash(s.token_hash), at);
}

/// Renewal keeps a session's id and user, gives it a fingerprint that
/// differs from the one before, and moves its expiry to one lifetime from
/// now, which is later than the expiry before. The old token no longer
/// resolves; the new one resolves to the renewed session.
///
/// The session's old expiry is taken to lie before `now + ttl`: a session
/// renewed in the very second in which it began would keep its expiry.
pub proof fn lemma_renewal_rotates(
    rows: Seq<SessionView>,
    next_id: i64,
    s: SessionView,
    hash: Seq<char>,
    now: i64,
    ttl: int,
)
    requires
        sessions_wf(rows, next_id),
        lookup(rows, with_id(s.id)) == Some(s),
        lookup(rows, with_hash(hash)) is None,
        s.expires < now + ttl <= i64::MAX,
    ensures
        ({
            let after = rows.map_values(rotated(s.id, hash, (now + ttl) as i64));
            let renewed = SessionView { token_hash: hash, expires: (now + ttl) as i64, ..s };
            &&& sessions_wf(after, next_id)
            &&& lookup(after, with_id(s.id)) == Some(renewed)
            &&& renewed.id == s.id && renewed.user_id == s.user_id
            &&& renewed.token_hash != s.token_hash
            &&& renewed.expires > s.expires
            &&& lookup(after, with_hash(s.token_hash)) is None
            &&& lookup(after, with_hash(hash)) == Some(renewed)
        }),
{
    let after = rows.map_values(rotated(s.id, hash, (now + ttl) as i64));
    let renewed = SessionView { token_hash: hash, expires: (now + ttl) as i64, ..s };
    lemma_session_is_alone(rows, next_id, s);
    lemma_lookup_misses(rows, with_hash(hash));
    let at = choose|at: int|
        {
            &&& 0 <= at < rows.len()
            &&& #[trigger] rows[at] == s
            &&& forall|k: int|
                0 <= k < rows.len() && k != at ==> (#[trigger] rows[k]).id != s.id
                    && rows[k].token_hash != s.token_hash
        };
    assert(!with_hash(hash)(rows[at]));
    assert(after[at] == renewed);
    assert forall|k: int| 0 <= k < after.len() && k != at implies #[trigger] after[k]
        == rows[k] by {}
    assert forall|k: int| 0 <= k < after.len() && k != at implies !with_id(s.id)(
        #[trigger] after[k],
    ) && !with_hash(hash)(after[k]) by {
        assert(after[k] == rows[k]);
        assert(!with_hash(hash)(rows[k]));
    }
    lemma_lookup_only(after, with_id(s.id), at);
    lemma_lookup_only(after, with_hash(hash), at);
    assert forall|k: int| 0 <= k < after.len() implies !with_hash(s.token_hash)(
        #[trigger] after[k],
    ) by {
        if k != at {
            assert(after[k] == rows[k]);
        }
    }
    lemma_lookup_none(after, with_hash(s.token_hash));
    assert forall|i: int, j: int| 0 <= i < j < after.len() implies after[i].id != after[j].id
        && after[i].token_hash != after[j].token_hash by {
        assert(rows[i].id != rows[j].id && rows[i].token_hash != rows[j].token_hash);
        assert(!with_hash(hash)(rows[i]) && !with_hash(hash)(rows[j]));
    }
    assert forall|i: int| 0 <= i < after.len() implies 1 <= (#[trigger] after[i]).id
        < next_id by {
        assert(1 <= rows[i].id < next_id);
    }
}

/// The renewal policy renews a session before it expires, not after: in the
/// renewal window of a session that has not expired, one lifetime from now
/// lies beyond the session's expiry.
pub proof fn lemma_renewal_extends(expires: i64, now: i64, threshold: int, ttl: int)
    requires
        due_for_renewal(expires, now, threshold),
        threshold < ttl,
    ensures
        expires < now + ttl,
{
}

/// Once a session is deleted, neither its id nor its token resolves.
pub proof fn lemma_deleted_session_is_gone(rows: Seq<SessionView>, next_id: i64, s: SessionView)
    requires
        sessions_wf(rows, next_id),
        lookup(rows, with_hash(s.token_hash)) == Some(s),
    ensures
        sessions_wf(rows.filter(without_id(s.id)), next_id),
        lookup(rows.filter(without_id(s.id)), with_id(s.id)) is None,
        lookup(rows.filter(without_id(s.id)), with_hash(s.token_hash)) is None,
{
    let after = rows.filter(without_id(s.id));
    lemma_filter_keeps_wf(rows, next_id, without_id(s.id));
    lemma_session_is_alone(rows, next_id, s);
    assert forall|i: int| 0 <= i < after.len() implies !with_id(s.id)(#[trigger] after[i])
        && !with_hash(s.token_hash)(after[i]) by {
        lemma_filter_member(rows, without_id(s.id), i);
    }
    lemma_lookup_none(after, with_id(s.id));
    lemma_lookup_none(after, with_hash(s.token_hash));
}

/// Removing sessions disturbs no other: after any removal, a token
/// resolves to the session it resolved to before where that session was
/// kept, and to nothing where it was removed. So a sweep forgets the
/// expired sessions and no valid one, and revoking one session logs out
/// nobody else.
pub proof fn lemma_removal_spares_the_rest(
    rows: Seq<SessionView>,
    next_id: i64,
    keep: spec_fn(SessionView) -> bool,
    hash: Seq<char>,
)
    requires
        sessions_wf(rows, next_id),
    ensures
        lookup(rows.filter(keep), with_hash(hash)) == match lookup(rows, with_hash(hash)) {
            Some(s) => if keep(s) {
                Some(s)
            } else {
                None
            },
            None => None,
        },
{
    let after = rows.filter(keep);
    lemma_filter_keeps_wf(rows, next_id, keep);
    match lookup(rows, with_hash(hash)) {
        Some(s) => {
            lemma_session_is_alone(rows, next_id, s);
            let at = choose|at: int|
                {
                    &&& 0 <= at < rows.len()
                    &&& #[trigger] rows[at] == s
                    &&& forall|k: int|
                        0 <= k < rows.len() && k != at ==> (#[trigger] rows[k]).id != s.id
                            && rows[k].token_hash != s.token_hash
                };
            assert forall|i: int| 0 <= i < after.len() && with_hash(hash)(
                #[trigger] after[i],
            ) implies after[i] == s && keep(s) by {
                lemma_filter_member(rows, keep, i);
                let k = choose|k: int| 0 <= k < rows.len() && rows[k] == after[i];
                assert(k == at);
            }
            if keep(s) {
                rows.lemma_filter_contains(keep, at);
                let i = choose|i: int| 0 <= i < after.len() && after[i] == s;
                assert forall|k: int| 0 <= k < after.len() && k != i implies !with_hash(hash)(
                    #[trigger] after[k],
                ) by {
                    if k < i {
                        assert(after[k].token_hash != after[i].token_hash);
                    } else {
                        assert(after[i].token_hash != after[k].token_hash);
                    }
                }
                lemma_lookup_only(after, with_hash(hash), i);
            } else {
                lemma_lookup_none(after, with_hash(hash));
            }
        },
        None => {
            lemma_lookup_misses(rows, with_hash(hash));
            assert forall|i: int| 0 <= i < after.len() implies !with_hash(hash)(
                #[trigger] after[i],
            ) by {
                lemma_filter_member(rows, keep, i);
            }
            lemma_lookup_none(after, with_hash(hash));
        },
    }
}

/// Beginning a session disturbs no other: the new token resolves to the
/// new session, and every other token resolves as it did before.
pub proof fn lemma_new_session_resolves(
    rows: Seq<SessionView>,
    next_id: i64,
    new: SessionView,
    hash: Seq<char>,
)
    requires
        sessions_wf(rows, next_id),
        lookup(rows, with_hash(new.token_hash)) is None,
    ensures
        lookup(rows.push(new), with_hash(hash)) == if hash == new.token_hash {
            Some(new)
        } else {
            lookup(rows, with_hash(hash))
        },
{
    let after = rows.push(new);
    lemma_lookup_misses(rows, with_hash(new.token_hash));
    if hash == new.token_hash {
        assert forall|k: int| 0 <= k < after.len() && k != rows.len() implies !with_hash(hash)(
            #[trigger] after[k],
        ) by {
            assert(after[k] == rows[k]);
        }
        lemma_lookup_only(after, with_hash(hash), rows.len() as int);
    } else {
        match lookup(rows, with_hash(hash)) {
            Some(s) => {
                lemma_session_is_alone(rows, next_id, s);
                let at = choose|at: int|
                    {
                        &&& 0 <= at < rows.len()
                        &&& #[trigger] rows[at] == s
                        &&& forall|k: int|
                            0 <= k < rows.len() && k != at ==> (#[trigger] rows[k]).id != s.id
                                && rows[k].token_hash != s.token_hash
                    };
                assert(after[at] == s);
                assert forall|k: int| 0 <= k < after.len() && k != at implies !with_hash(hash)(
                    #[trigger] after[k],
                ) by {
                    if k < rows.len() {
                        assert(after[k] == rows[k]);
                    }
                }
                lemma_lookup_only(after, with_hash(hash), at);
            },
            None => {
                lemma_lookup_misses(rows, with_hash(hash));
                assert forall|k: int| 0 <= k < after.len() implies !with_hash(hash)(
                    #[trigger] after[k],
                ) by {
                    if k < rows.len() {
                        assert(after[k] == rows[k]);
                    }
                }
                lemma_lookup_none(after, with_hash(hash));
            },
        }
    }
}

/// Renewing a session disturbs no other: every token but the old and the
/// new one of the renewed session resolves as it did before.
pub proof fn lemma_renewal_spares_the_rest(
    rows: Seq<SessionView>,
    next_id: i64,
    s: SessionView,
    hash: Seq<char>,
    expires: i64,
    other: Seq<char>,
)
    requires
        sessions_wf(rows, next_id),
        lookup(rows, with_id(s.id)) == Some(s),
        other != s.token_hash,
        other != hash,
    ensures
        lookup(rows.map_values(rotated(s.id, hash, expires)), with_hash(other)) == lookup(
            rows,
            with_hash(other),
        ),
{
    let after = rows.map_values(rotated(s.id, hash, expires));
    lemma_session_is_alone(rows, next_id, s);
    assert forall|k: int| 0 <= k < rows.len() implies with_hash(other)(#[trigger] after[k])
        == with_hash(other)(rows[k]) && (with_hash(other)(rows[k]) ==> after[k] == rows[k]) by {
        if rows[k].id == s.id {
            assert(rows[k].token_hash == s.token_hash);
        }
    }
    match lookup(rows, with_hash(other)) {
        Some(found) => {
            lemma_session_is_alone(rows, next_id, found);
            let at = choose|at: int|
                {
                    &&& 0 <= at < rows.len()
                    &&& #[trigger] rows[at] == found
                    &&& forall|k: int|
                        0 <= k < rows.len() && k != at ==> (#[trigger] rows[k]).id != found.id
                            && rows[k].token_hash != found.token_hash
                };
            assert(with_hash(other)(after[at]));
            assert forall|k: int| 0 <= k < after.len() && k != at implies !with_hash(other)(
                #[trigger] after[k],
            ) by {
                assert(!with_hash(other)(rows[k]));
            }
            lemma_lookup_only(after, with_hash(other), at);
        },
        None => {
            lemma_lookup_misses(rows, with_hash(other));
            assert forall|k: int| 0 <= k < after.len() implies !with_hash(other)(
                #[trigger] after[k],
            ) by {
                assert(!with_hash(other)(rows[k]));
            }
            lemma_lookup_none(after, with_hash(other));
        },
    }
}

} // verus!
