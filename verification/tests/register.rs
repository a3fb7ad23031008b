use auth_core::challenge::Challenge;
use auth_core::config::Config;
use auth_core::hashing::check_password;
use auth_core::login::{conclude_login, login, login_outcome, logout, LoginOutcome};
use auth_core::mail::{AppMailer, Notification};
use auth_core::maybe_auth::MaybeAuth;
use auth_core::middleware::auth_middleware;
use auth_core::register::{
    conclude_registration, judge_registration, register, settle_registration,
    validate_registration, RegistrationError, RegistrationOutcome,
};
use auth_core::result::{AppError, AuthError, MailError, StoreError};
use auth_core::session::Session;
use auth_core::state::State;
use auth_core::token_action::{AuthTokenAction, RequestContext};
use auth_core::user::{User, UserData, UserState, UserTable};

struct Outbox {
    fail: bool,
    links: Vec<String>,
}

impl Outbox {
    fn last_code(&self) -> String {
        self.links.last().unwrap().split("&code=").nth(1).unwrap().to_string()
    }
}

impl AppMailer for Outbox {
    fn send_notification(&mut self, _user: &User, _notification: Notification) -> Result<(), MailError> {
        Ok(())
    }

    fn send_challenge(&mut self, _user: &User, _challenge: Challenge, link: &str) -> Result<(), MailError> {
        self.links.push(link.to_string());
        if self.fail {
            Err(MailError::Smtp)
        } else {
            Ok(())
        }
    }
}

fn state() -> State {
    State::new(Config {
        base_url: "https://example.org/".to_string(),
        session_token_cookie_name: "session".to_string(),
        session_duration_days: 7,
        session_renew_after_days: 2,
    })
    .unwrap()
}

fn refused(e: RegistrationError) -> RegistrationOutcome {
    RegistrationOutcome { new_user_id: -1, error: Some(e) }
}

#[test]
fn the_details_of_a_registration_are_checked_in_order() {
    assert_eq!(validate_registration("a@b", "A", "12345678"), None);
    assert_eq!(
        validate_registration("ab", "", "1"),
        Some(RegistrationError::MalformedEmail)
    );
    assert_eq!(
        validate_registration("", "A", "12345678"),
        Some(RegistrationError::MalformedEmail)
    );
    assert_eq!(
        validate_registration("a@b", "", "1"),
        Some(RegistrationError::MissingDisplayName)
    );
    assert_eq!(
        validate_registration("a@b", "A", "1234567"),
        Some(RegistrationError::PasswordTooShort)
    );
    assert_eq!(validate_registration("@", "A", "12345678"), None);
    // The length of a password is counted in bytes.
    assert_eq!(validate_registration("a@b", "A", "éééé"), None);
    assert_eq!(
        validate_registration("a@b", "A", "ééé"),
        Some(RegistrationError::PasswordTooShort)
    );
}

#[test]
fn the_messages_of_a_refused_registration() {
    assert_eq!(RegistrationError::MalformedEmail.message(), "Malformed email address");
    assert_eq!(RegistrationError::EmailAlreadyExists.message(), "Email address already in use");
    assert_eq!(
        RegistrationError::EmailFailed.message(),
        "Failed to send an email with the verification link"
    );
    assert_eq!(RegistrationError::MissingDisplayName.message(), "Please choose a display name");
    assert_eq!(
        RegistrationError::PasswordTooShort.message(),
        "Please choose a password of at least 8 characters"
    );
}

#[test]
fn a_registration_stores_an_unverified_user_and_mails_a_code() {
    let mut s = state();
    let mut outbox = Outbox { fail: false, links: Vec::new() };

    let outcome = User::register(&mut s, &mut outbox, "a@example.org", "Ann", "correct horse", 50).unwrap();
    assert_eq!(outcome, RegistrationOutcome { new_user_id: 1, error: None });

    let data = s.users.get_user_data_by_id(1).unwrap();
    assert_eq!(data.user.id, 1);
    assert_eq!(data.user.email, "a@example.org");
    assert_eq!(data.user.display_name, "Ann");
    assert!(!data.user.is_admin);
    assert_eq!(data.state, UserState::unverified());
    assert_ne!(data.password_hash, "correct horse");
    assert_eq!(true, check_password(&data.password_hash, "correct horse").unwrap());

    let challenge = s.challenges.get_challenge_by_id(1).unwrap();
    assert_eq!(challenge.user_id, 1);
    assert_eq!(challenge.challenge, Challenge::VerifyNewUser);
    assert_eq!(challenge.expires, 50 + 86_400);
    assert_eq!(outbox.links.len(), 1);
    assert!(outbox.links[0].starts_with("https://example.org/verify?id=1&code="));

    // A wrong code verifies nothing.
    assert!(matches!(
        User::verify_account(&mut s, 1, "wrong", 60),
        Err(AppError::Auth(AuthError::IncorrectChallengeCode))
    ));
    assert!(s.users.get_user_data_by_id(1).unwrap().state.require_email_verification);

    // The right code does, once.
    let code = outbox.last_code();
    assert!(User::verify_account(&mut s, 1, &code, 60).is_ok());
    let data = s.users.get_user_data_by_id(1).unwrap();
    assert!(!data.state.require_email_verification);
    assert!(data.state.is_ready());
    assert_eq!(s.challenges.len(), 0);
    assert!(User::verify_account(&mut s, 1, &code, 61).is_err());
}

#[test]
fn a_registration_is_refused_without_a_trace() {
    let mut s = state();
    let mut outbox = Outbox { fail: false, links: Vec::new() };
    User::register(&mut s, &mut outbox, "a@example.org", "Ann", "correct horse", 0).unwrap();

    let tries = [
        ("no at sign", "Bob", "12345678", RegistrationError::MalformedEmail),
        ("b@example.org", "", "12345678", RegistrationError::MissingDisplayName),
        ("b@example.org", "Bob", "short", RegistrationError::PasswordTooShort),
        ("a@example.org", "Bob", "12345678", RegistrationError::EmailAlreadyExists),
        ("A@Example.ORG", "Bob", "12345678", RegistrationError::EmailAlreadyExists),
        // The details are checked before the address is looked up.
        ("a@example.org", "Bob", "short", RegistrationError::PasswordTooShort),
    ];
    for (email, name, password, error) in tries {
        let outcome = User::register(&mut s, &mut outbox, email, name, password, 0).unwrap();
        assert_eq!(outcome, refused(error));
        assert_eq!(s.users.len(), 1);
        assert_eq!(s.challenges.len(), 1);
        assert_eq!(outbox.links.len(), 1);
    }
}

#[test]
fn a_registration_whose_mail_fails_leaves_no_trace() {
    let mut s = state();
    let mut outbox = Outbox { fail: true, links: Vec::new() };

    let outcome = User::register(&mut s, &mut outbox, "a@example.org", "Ann", "correct horse", 0).unwrap();
    assert_eq!(outcome, refused(RegistrationError::EmailFailed));
    assert_eq!(s.users.len(), 0);
    assert_eq!(s.challenges.len(), 0);
    assert!(s.users.get_user_data_by_identifier("a@example.org").is_none());

    // The address is free for another attempt.
    outbox.fail = false;
    let user = User {
        id: 77,
        email: "a@example.org".to_string(),
        display_name: "Ann".to_string(),
        is_admin: true,
    };
    let outcome = register(&mut s, &mut outbox, user, "correct horse", 0).unwrap();
    assert_eq!(outcome.error, None);
    assert_eq!(outcome.new_user_id, 2);
    let data = s.users.get_user_data_by_id(2).unwrap();
    assert!(data.user.is_admin);
    assert_eq!(s.challenges.get_challenge_by_id(2).unwrap().user_id, 2);
}

#[test]
fn expired_verification_codes_are_swept() {
    let mut s = state();
    let mut outbox = Outbox { fail: false, links: Vec::new() };
    User::register(&mut s, &mut outbox, "a@example.org", "Ann", "correct horse", 0).unwrap();
    User::register(&mut s, &mut outbox, "b@example.org", "Bob", "correct horse", 10).unwrap();
    User::delete_unverified_expired(&mut s, 86_399);
    assert_eq!(s.challenges.len(), 2);
    User::delete_unverified_expired(&mut s, 86_400);
    assert_eq!(s.challenges.len(), 1);
    assert!(s.challenges.get_challenge_by_id(2).is_some());
    assert_eq!(s.users.len(), 2);
}

fn data(email: &str) -> UserData {
    UserData {
        user: User { id: -1, email: email.to_string(), display_name: "N".to_string(), is_admin: false },
        password_hash: "old".to_string(),
        state: UserState::unverified(),
    }
}

#[test]
fn the_user_table_on_its_own() {
    let mut t = UserTable::new();
    assert_eq!(t.insert_user(&data("a@example.org")).unwrap(), 1);
    assert_eq!(t.insert_user(&data("b@example.org")).unwrap(), 2);
    assert!(matches!(t.insert_user(&data("B@EXAMPLE.org")), Err(StoreError::Duplicate)));
    assert_eq!(t.len(), 2);

    assert_eq!(t.get_user_data_by_identifier("B@example.ORG").unwrap().user.id, 2);
    assert!(t.get_user_data_by_identifier("b@example.or").is_none());
    assert!(t.get_user_data_by_identifier("ß@example.org").is_none());
    assert!(t.get_user_data_by_id(3).is_none());

    t.verify_user(2);
    t.verify_user(9);
    assert!(!t.get_user_data_by_id(2).unwrap().state.require_email_verification);
    assert!(t.get_user_data_by_id(1).unwrap().state.require_email_verification);

    t.update_password(1, "new".to_string(), true);
    let one = t.get_user_data_by_id(1).unwrap();
    assert_eq!(one.password_hash, "new");
    assert!(one.state.require_password_change);
    assert!(one.state.require_email_verification);
    assert_eq!(one.user.email, "a@example.org");
    assert_eq!(t.get_user_data_by_id(2).unwrap().password_hash, "old");
    t.update_password(1, "newer".to_string(), false);
    assert!(!t.get_user_data_by_id(1).unwrap().state.require_password_change);

    t.delete_user(1);
    t.delete_user(1);
    assert_eq!(t.len(), 1);
    assert_eq!(t.insert_user(&data("a@example.org")).unwrap(), 3);

    let mut user = t.get_user_data_by_id(3).unwrap().user;
    assert_eq!(user.id(), 3);
    user.set_id(8);
    assert_eq!(user.id(), 8);
    assert_eq!(user.email, "a@example.org");
}

#[test]
fn logging_in_and_out() {
    let mut s = state();
    let mut outbox = Outbox { fail: false, links: Vec::new() };
    User::register(&mut s, &mut outbox, "a@example.org", "Ann", "correct horse", 0).unwrap();

    let mut request = RequestContext::new(MaybeAuth::Unauthenticated);
    let r = login(&mut s, &mut request, "nobody@example.org", "correct horse", 5).unwrap();
    assert!(matches!(r, LoginOutcome::NoSuchUser));
    let r = login(&mut s, &mut request, "a@example.org", "wrong horse", 5).unwrap();
    assert!(matches!(r, LoginOutcome::IncorrectPassword));
    assert!(request.token_action.is_none());
    assert_eq!(s.sessions.len(), 0);

    // Before the address is verified the login succeeds, but the user is not ready.
    let r = login(&mut s, &mut request, "A@example.org", "correct horse", 5).unwrap();
    let token = match request.token_action.take() {
        Some(AuthTokenAction::Issue(token)) => token,
        other => panic!("expected a token, got {:?}", other),
    };
    match r {
        LoginOutcome::SuccessButNotReady(auth) => {
            assert_eq!(auth.user.id, 1);
            assert_eq!(auth.session_id, 1);
        }
        other => panic!("expected a login, got {:?}", other),
    }
    let session = Session::resolve(&s, &token).unwrap();
    assert_eq!(session.user_id, 1);
    assert_eq!(session.expires, 5 + 7 * 86_400);

    let code = outbox.last_code();
    User::verify_account(&mut s, 1, &code, 6).unwrap();
    let r = login(&mut s, &mut request, "a@example.org", "correct horse", 7).unwrap();
    assert!(matches!(r, LoginOutcome::Success(ref auth) if auth.session_id == 2));
    assert!(matches!(request.token_action, Some(AuthTokenAction::Issue(_))));
    assert_eq!(s.sessions.len(), 2);

    // The resolver recognises the first session; logging out revokes it.
    let (mut request, _) = auth_middleware(&mut s, Some(&token), 8).unwrap();
    let who = std::mem::replace(&mut request.auth, MaybeAuth::Unauthenticated);
    assert!(matches!(who, MaybeAuth::Authenticated(ref auth) if auth.session_id == 1));
    logout(&mut s, &mut request, who);
    assert!(matches!(request.token_action, Some(AuthTokenAction::Revoke)));
    assert!(Session::resolve(&s, &token).is_none());
    assert_eq!(s.sessions.len(), 1);

    let mut request = RequestContext::new(MaybeAuth::Unauthenticated);
    logout(&mut s, &mut request, MaybeAuth::Unauthenticated);
    assert!(request.token_action.is_none());
    assert_eq!(s.sessions.len(), 1);
}

#[test]
fn concluding_a_login_for_each_verdict() {
    let mut s = state();
    let mut request = RequestContext::new(MaybeAuth::Unauthenticated);

    let r = conclude_login(&mut s, &mut request, data("a@b"), Ok(false), 0).unwrap();
    assert!(matches!(r, LoginOutcome::IncorrectPassword));
    let r = conclude_login(&mut s, &mut request, data("a@b"), Err(AppError::EntropyExhausted), 0);
    assert!(matches!(r, Err(AppError::EntropyExhausted)));
    assert!(request.token_action.is_none());
    assert_eq!(s.sessions.len(), 0);

    let mut ready = data("a@b");
    ready.user.id = 4;
    ready.state = UserState {
        is_suspended: false,
        require_email_verification: false,
        require_password_change: false,
    };
    let r = conclude_login(&mut s, &mut request, ready, Ok(true), 0).unwrap();
    assert!(matches!(r, LoginOutcome::Success(ref auth) if auth.user.id == 4 && auth.session_id == 1));
    assert!(matches!(request.token_action, Some(AuthTokenAction::Issue(_))));
    assert_eq!(s.sessions.get_session_by_id(1).unwrap().user_id, 4);

    assert!(matches!(login_outcome(data("a@b"), 7), LoginOutcome::SuccessButNotReady(ref a) if a.session_id == 7));
}

#[test]
fn a_corrupt_password_digest_is_an_internal_error() {
    let mut s = state();
    let mut user = data("a@example.org");
    user.password_hash = "corrupt".to_string();
    s.users.insert_user(&user).unwrap();
    let mut request = RequestContext::new(MaybeAuth::Unauthenticated);
    let r = login(&mut s, &mut request, "a@example.org", "anything", 0);
    assert!(matches!(r, Err(AppError::Hash(_))));
    assert_eq!(s.sessions.len(), 0);
}

#[test]
fn a_full_table_refuses_a_registration_without_a_trace() {
    assert!(UserTable::starting_at(0).is_none());

    let mut s = state();
    let mut outbox = Outbox { fail: false, links: Vec::new() };
    s.users = UserTable::starting_at(i64::MAX).unwrap();
    let r = User::register(&mut s, &mut outbox, "a@example.org", "Ann", "correct horse", 0);
    assert!(matches!(r, Err(AppError::Store(StoreError::IdsExhausted))));
    assert_eq!(s.users.len(), 0);

    // Where the challenge cannot be stored, the user is taken back.
    let mut s = state();
    s.users = UserTable::starting_at(40).unwrap();
    s.challenges = auth_core::challenge::ChallengeTable::starting_at(i64::MAX).unwrap();
    let r = User::register(&mut s, &mut outbox, "a@example.org", "Ann", "correct horse", 0);
    assert!(matches!(r, Err(AppError::Store(StoreError::IdsExhausted))));
    assert_eq!(s.users.len(), 0);
    assert_eq!(s.challenges.len(), 0);
    assert!(outbox.links.is_empty());

    let mut t = UserTable::starting_at(i64::MAX - 1).unwrap();
    assert_eq!(t.insert_user(&data("a@example.org")).unwrap(), i64::MAX - 1);
    assert!(matches!(t.insert_user(&data("b@example.org")), Err(StoreError::IdsExhausted)));
    assert!(matches!(t.insert_user(&data("a@example.org")), Err(StoreError::Duplicate)));
}

#[test]
fn judging_a_registration_for_each_result_of_the_issue() {
    let (undo, result) = judge_registration(7, Ok(3));
    assert_eq!(undo, None);
    assert_eq!(result.unwrap(), RegistrationOutcome { new_user_id: 7, error: None });

    for e in [MailError::Address, MailError::Compose, MailError::Smtp] {
        let (undo, result) = judge_registration(7, Err(AppError::Mail(e)));
        assert_eq!(undo, Some(7));
        assert_eq!(result.unwrap(), refused(RegistrationError::EmailFailed));
    }

    let (undo, result) = judge_registration(7, Err(AppError::Store(StoreError::IdsExhausted)));
    assert_eq!(undo, Some(7));
    assert!(matches!(result, Err(AppError::Store(StoreError::IdsExhausted))));

    let corrupt = auth_core::hashing::check_password("corrupt", "x").unwrap_err();
    let (undo, result) = judge_registration(7, Err(corrupt));
    assert_eq!(undo, Some(7));
    assert!(matches!(result, Err(AppError::Hash(_))));

    let (undo, result) = judge_registration(7, Err(AppError::EntropyExhausted));
    assert_eq!(undo, Some(7));
    assert!(matches!(result, Err(AppError::EntropyExhausted)));
}

#[test]
fn concluding_a_registration_keeps_or_takes_back_the_user() {
    let mut s = state();
    let a = s.users.insert_user(&data("a@example.org")).unwrap();
    let b = s.users.insert_user(&data("b@example.org")).unwrap();
    let c = s.users.insert_user(&data("c@example.org")).unwrap();

    let r = conclude_registration(&mut s, a, Ok(1)).unwrap();
    assert_eq!(r, RegistrationOutcome { new_user_id: a, error: None });
    assert_eq!(s.users.len(), 3);

    let r = conclude_registration(&mut s, b, Err(AppError::Mail(MailError::Smtp))).unwrap();
    assert_eq!(r, refused(RegistrationError::EmailFailed));
    assert!(s.users.get_user_data_by_id(b).is_none());
    assert_eq!(s.users.len(), 2);

    let r = conclude_registration(&mut s, c, Err(AppError::Store(StoreError::IdsExhausted)));
    assert!(matches!(r, Err(AppError::Store(StoreError::IdsExhausted))));
    assert!(s.users.get_user_data_by_id(c).is_none());
    assert!(s.users.get_user_data_by_id(a).is_some());
    assert_eq!(s.users.len(), 1);
}

#[test]
fn a_refused_registration_asks_nothing_of_the_clock() {
    let mut s = state();
    let mut outbox = Outbox { fail: false, links: Vec::new() };
    let outcome = User::register(&mut s, &mut outbox, "no at sign", "Ann", "correct horse", i64::MAX).unwrap();
    assert_eq!(outcome, refused(RegistrationError::MalformedEmail));
    let outcome = User::register(&mut s, &mut outbox, "a@example.org", "Ann", "correct horse", i64::MAX - 86_400).unwrap();
    assert_eq!(outcome.error, None);
    assert_eq!(s.challenges.get_challenge_by_id(1).unwrap().expires, i64::MAX);
}

#[test]
fn settling_a_registration_for_each_answer_of_the_mailer() {
    let mut s = state();
    let a = s.users.insert_user(&data("a@example.org")).unwrap();
    let b = s.users.insert_user(&data("b@example.org")).unwrap();
    let for_a = auth_core::mail::create_challenge(&mut s, a, Challenge::VerifyNewUser, "", 18, 0).unwrap();
    let for_b = auth_core::mail::create_challenge(&mut s, b, Challenge::VerifyNewUser, "", 18, 0).unwrap();

    let r = settle_registration(&mut s, a, for_a.id, Ok(())).unwrap();
    assert_eq!(r, RegistrationOutcome { new_user_id: a, error: None });
    assert_eq!((s.users.len(), s.challenges.len()), (2, 2));

    for e in [MailError::Address, MailError::Compose, MailError::Smtp] {
        let r = settle_registration(&mut s, b, for_b.id, Err(e)).unwrap();
        assert_eq!(r, refused(RegistrationError::EmailFailed));
        assert_eq!((s.users.len(), s.challenges.len()), (1, 1));
    }
    assert!(s.users.get_user_data_by_id(b).is_none());
    assert!(s.challenges.get_challenge_by_id(for_b.id).is_none());
    assert!(s.users.get_user_data_by_id(a).is_some());
    assert!(s.challenges.get_challenge_by_id(for_a.id).is_some());

    // The code that was never received redeems nothing; the other still does.
    assert!(auth_core::mail::complete_challenge(&mut s, for_b.id, &for_b.code, 1).is_err());
    assert!(auth_core::mail::complete_challenge(&mut s, for_a.id, &for_a.code, 1).is_ok());
}
