use auth_core::config::Config;
use auth_core::hashing::token_hash;
use auth_core::result::{AppError, StoreError};
use auth_core::session::{
    generate_new_session_token, get_expiry_time_from_now, is_expired, should_renew, Session,
    SessionTable,
};
use auth_core::state::State;

const DAY: i64 = 86_400;

fn config(duration_days: i64, renew_after_days: i64) -> Config {
    Config {
        base_url: "https://example.org/".to_string(),
        session_token_cookie_name: "session".to_string(),
        session_duration_days: duration_days,
        session_renew_after_days: renew_after_days,
    }
}

fn state() -> State {
    State::new(config(7, 2)).unwrap()
}

#[test]
fn state_refuses_a_configuration_that_makes_no_sense() {
    assert!(State::new(config(7, 7)).is_none());
    assert!(State::new(config(7, 8)).is_none());
    assert!(State::new(config(7, -1)).is_none());
    assert!(State::new(config(0, 0)).is_none());
    assert!(State::new(config(106_751_991_167_301, 2)).is_none());
    assert!(State::new(config(106_751_991_167_300, 2)).is_some());
    assert!(State::new(config(1, 0)).is_some());
}

#[test]
fn configuration_in_hours_and_seconds() {
    let s = state();
    assert_eq!(s.session_expire_after_hours(), 168);
    assert_eq!(s.session_renew_after_hours(), 48);
    assert_eq!(s.session_token_cookie_name(), "session");
    assert_eq!(s.cfg.session_ttl_seconds(), 604_800);
    assert_eq!(s.cfg.renew_threshold_seconds(), 172_800);
    assert_eq!(get_expiry_time_from_now(&s.cfg, 1_000), 605_800);
}

#[test]
fn begin_stores_the_fingerprint_and_the_expiry() {
    let mut s = state();
    let token = Session::begin_for_user(&mut s, 42, 1_000).unwrap();
    assert_eq!(token.len(), 24);
    assert_eq!(s.sessions.len(), 1);

    let found = Session::resolve(&s, &token).unwrap();
    assert_eq!(found.id, 1);
    assert_eq!(found.user_id, 42);
    assert_eq!(found.token_hash, token_hash(&token));
    assert_ne!(found.token_hash, token);
    assert_eq!(found.expires, 1_000 + 7 * DAY);

    let by_id = s.sessions.get_session_by_id(1).unwrap();
    assert_eq!(by_id.token_hash, found.token_hash);
    assert!(s.sessions.get_session_by_id(2).is_none());
    assert!(Session::resolve(&s, "no such token").is_none());
}

#[test]
fn begin_hands_out_rising_ids() {
    let mut s = state();
    let (a, _) = Session::begin(&mut s, 1, 0).unwrap();
    let (b, _) = Session::begin(&mut s, 1, 0).unwrap();
    Session::revoke_by_id(&mut s, b);
    let (c, _) = Session::begin(&mut s, 2, 0).unwrap();
    assert_eq!((a, b, c), (1, 2, 3));
}

#[test]
fn renewal_keeps_the_id_changes_the_fingerprint_and_extends_the_expiry() {
    let mut s = state();
    let old_token = Session::begin_for_user(&mut s, 42, 0).unwrap();
    let before = Session::resolve(&s, &old_token).unwrap();

    let now = 6 * DAY;
    let new_token = Session::renew(&mut s, before.id, now).unwrap();
    assert_ne!(new_token, old_token);

    let after = Session::resolve(&s, &new_token).unwrap();
    assert_eq!(after.id, before.id);
    assert_eq!(after.user_id, before.user_id);
    assert_ne!(after.token_hash, before.token_hash);
    assert_eq!(after.token_hash, token_hash(&new_token));
    assert_eq!(after.expires, now + 7 * DAY);
    assert!(after.expires > before.expires);

    assert!(Session::resolve(&s, &old_token).is_none());
    assert_eq!(s.sessions.len(), 1);
}

#[test]
fn renewing_what_does_not_exist_changes_nothing() {
    let mut s = state();
    let token = Session::begin_for_user(&mut s, 42, 0).unwrap();
    let unused = Session::renew(&mut s, 99, 10).unwrap();
    assert_eq!(s.sessions.len(), 1);
    assert!(Session::resolve(&s, &unused).is_none());
    assert_eq!(Session::resolve(&s, &token).unwrap().expires, 7 * DAY);
}

#[test]
fn revoking_is_idempotent() {
    let mut s = state();
    let a = Session::begin_for_user(&mut s, 1, 0).unwrap();
    let b = Session::begin_for_user(&mut s, 2, 0).unwrap();

    Session::revoke_by_id(&mut s, 1);
    assert!(Session::resolve(&s, &a).is_none());
    assert!(Session::resolve(&s, &b).is_some());
    Session::revoke_by_id(&mut s, 1);
    Session::revoke_by_id(&mut s, 77);
    assert_eq!(s.sessions.len(), 1);

    Session::revoke_by_token(&mut s, &b);
    assert!(Session::resolve(&s, &b).is_none());
    Session::revoke_by_token(&mut s, &b);
    Session::revoke_by_token(&mut s, "never issued");
    assert_eq!(s.sessions.len(), 0);
}

#[test]
fn sweep_deletes_what_has_expired_and_nothing_else() {
    let mut s = state();
    let a = Session::begin_for_user(&mut s, 1, 0).unwrap();
    let b = Session::begin_for_user(&mut s, 2, 10).unwrap();
    let c = Session::begin_for_user(&mut s, 3, 20).unwrap();

    // One second before the first expiry nothing goes.
    Session::delete_all_expired(&mut s, 7 * DAY - 1);
    assert_eq!(s.sessions.len(), 3);

    // At the moment of expiry the session has expired.
    Session::delete_all_expired(&mut s, 7 * DAY);
    assert!(Session::resolve(&s, &a).is_none());
    assert!(Session::resolve(&s, &b).is_some());
    assert!(Session::resolve(&s, &c).is_some());

    s.delete_all_expired_sessions(7 * DAY + 20);
    assert_eq!(s.sessions.len(), 0);
}

#[test]
fn the_table_refuses_a_fingerprint_twice() {
    let mut t = SessionTable::new();
    assert_eq!(t.insert_session(1, "aaa".to_string(), 100).unwrap(), 1);
    assert!(matches!(t.insert_session(2, "aaa".to_string(), 200), Err(StoreError::Duplicate)));
    assert_eq!(t.insert_session(2, "bbb".to_string(), 200).unwrap(), 2);
    assert_eq!(t.len(), 2);
    assert!(!t.hash_is_fresh("aaa"));
    assert!(t.hash_is_fresh("ccc"));

    // A session may not take the fingerprint of another,
    assert!(matches!(t.update_session_by_id(2, "aaa".to_string(), 300), Err(StoreError::Duplicate)));
    assert_eq!(t.get_session_by_id(2).unwrap().expires, 200);
    // but it may keep its own,
    assert!(t.update_session_by_id(2, "bbb".to_string(), 300).is_ok());
    assert_eq!(t.get_session_by_id(2).unwrap().expires, 300);
    // and an update of what does not exist is no error.
    assert!(t.update_session_by_id(9, "aaa".to_string(), 300).is_ok());
    assert_eq!(t.get_session_by_hash("aaa").unwrap().id, 1);
    assert_eq!(t.get_session_by_hash("aaa").unwrap().expires, 100);

    t.delete_session_by_hash("aaa");
    assert!(t.get_session_by_id(1).is_none());
    t.delete_session_by_id(2);
    assert_eq!(t.len(), 0);
    assert_eq!(t.insert_session(3, "aaa".to_string(), 1).unwrap(), 3);
}

#[test]
fn expiry_and_renewal_boundaries() {
    assert!(is_expired(100, 100));
    assert!(is_expired(100, 101));
    assert!(!is_expired(100, 99));

    assert!(should_renew(100, 90, 10));
    assert!(should_renew(100, 91, 10));
    assert!(!should_renew(100, 89, 10));
    assert!(should_renew(100, 200, 0));
    assert!(!should_renew(i64::MAX, i64::MIN, i64::MAX));
    assert!(should_renew(i64::MIN, i64::MAX, 0));
}

#[test]
fn a_new_token_is_fresh_for_the_table() {
    let mut s = state();
    for user in 0..20 {
        Session::begin_for_user(&mut s, user, 0).unwrap();
    }
    let (token, hash) = generate_new_session_token(&s.sessions).unwrap();
    assert_eq!(hash, token_hash(&token));
    assert!(s.sessions.hash_is_fresh(&hash));
    assert!(!matches!(
        generate_new_session_token(&SessionTable::new()),
        Err(AppError::EntropyExhausted)
    ));
}

#[test]
fn a_table_that_has_handed_out_its_last_id_is_full() {
    assert!(SessionTable::starting_at(0).is_none());
    assert!(SessionTable::starting_at(-5).is_none());

    let mut t = SessionTable::starting_at(i64::MAX - 1).unwrap();
    assert_eq!(t.insert_session(1, "a".to_string(), 10).unwrap(), i64::MAX - 1);
    assert!(matches!(t.insert_session(1, "b".to_string(), 10), Err(StoreError::IdsExhausted)));
    // A fingerprint that is taken is reported first.
    assert!(matches!(t.insert_session(1, "a".to_string(), 10), Err(StoreError::Duplicate)));
    assert_eq!(t.len(), 1);

    let mut s = state();
    s.sessions = SessionTable::starting_at(i64::MAX).unwrap();
    let r = Session::begin_for_user(&mut s, 1, 0);
    assert!(matches!(r, Err(AppError::Store(StoreError::IdsExhausted))));
    assert_eq!(s.sessions.len(), 0);
    assert_eq!(r.unwrap_err().status_code(), 500);
}
