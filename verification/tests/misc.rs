use auth_core::challenge::Challenge;
use auth_core::compose::{
    challenge_template, compose_challenge, compose_notification, notification_template,
};
use auth_core::hashing::check_password;
use auth_core::mail::Notification;
use auth_core::user::User;
use auth_core::result::{
    AppError, AuthError, MailError, OrAppError, StoreError, BAD_REQUEST, INTERNAL_SERVER_ERROR,
    NOT_FOUND, UNAUTHORIZED,
};
use auth_core::routes::confirmation_link;
use auth_core::text::{contains_char, eq_ignore_ascii_case, starts_with, str_eq, to_decimal};
use auth_core::token::{
    generate_code, generate_session_token, generate_token, generate_unique_token, next_attempt,
    round_up_token_bytes, unlikeliness, Attempt,
};
use auth_core::hashing::token_hash;
use std::cell::Cell;

#[test]
fn integers_in_decimal() {
    assert_eq!(to_decimal(0), "0");
    assert_eq!(to_decimal(7), "7");
    assert_eq!(to_decimal(10), "10");
    assert_eq!(to_decimal(1234567890), "1234567890");
    assert_eq!(to_decimal(-1), "-1");
    assert_eq!(to_decimal(-905), "-905");
    assert_eq!(to_decimal(i64::MAX), "9223372036854775807");
    assert_eq!(to_decimal(i64::MIN), "-9223372036854775808");
}

#[test]
fn texts_compared() {
    assert!(str_eq("", ""));
    assert!(str_eq("héllo", "héllo"));
    assert!(!str_eq("hello", "hellp"));
    assert!(!str_eq("hello", "hell"));
    assert!(!str_eq("a", "A"));

    assert!(eq_ignore_ascii_case("Hello@Example.ORG", "hELLO@example.org"));
    assert!(eq_ignore_ascii_case("", ""));
    assert!(!eq_ignore_ascii_case("a", "ab"));
    assert!(!eq_ignore_ascii_case("ab", "a"));
    assert!(!eq_ignore_ascii_case("É", "é"));
    assert!(eq_ignore_ascii_case("é", "é"));
    assert!(!eq_ignore_ascii_case("@", "`"));
    assert!(!eq_ignore_ascii_case("[", "{"));
    assert!(eq_ignore_ascii_case("AZ", "az"));

    assert!(starts_with("hello", ""));
    assert!(starts_with("hello", "hell"));
    assert!(starts_with("hello", "hello"));
    assert!(!starts_with("hello", "hello!"));
    assert!(!starts_with("hello", "j"));
    assert!(starts_with("été", "ét"));

    assert!(contains_char("a@b", '@'));
    assert!(contains_char("@", '@'));
    assert!(contains_char("ab@", '@'));
    assert!(!contains_char("", '@'));
    assert!(!contains_char("a(at)b", '@'));
}

#[test]
fn the_link_that_completes_a_challenge() {
    assert_eq!(
        confirmation_link("https://example.org/", 12, "AbC-_9"),
        "https://example.org/verify?id=12&code=AbC-_9"
    );
    assert_eq!(confirmation_link("", -3, ""), "verify?id=-3&code=");
}

#[test]
fn the_status_and_the_reason_of_each_error() {
    assert_eq!((BAD_REQUEST, UNAUTHORIZED, NOT_FOUND, INTERNAL_SERVER_ERROR), (400, 401, 404, 500));
    assert_eq!(AppError::Status(BAD_REQUEST).status_code(), 400);
    assert_eq!(AppError::Status(BAD_REQUEST).http_reason(), "Bad Request");
    assert_eq!(AppError::Status(UNAUTHORIZED).http_reason(), "Unauthorized");
    assert_eq!(AppError::Status(NOT_FOUND).http_reason(), "Not Found");
    assert_eq!(AppError::Status(418).http_reason(), "I'm a teapot");
    assert_eq!(AppError::Status(299).http_reason(), "Unknown error");
    assert_eq!(AppError::Status(99).http_reason(), "Unknown error");
    assert_eq!(AppError::Status(1000).http_reason(), "Unknown error");

    for e in [
        AuthError::EmailNotVerified,
        AuthError::IncorrectChallengeCode,
        AuthError::NotAuthenticated,
        AuthError::RequirePasswordChange,
    ] {
        assert_eq!(e.status_code(), 401);
        assert_eq!(AppError::Auth(e).status_code(), 401);
        assert_eq!(AppError::Auth(e).http_reason(), "Unauthorized");
    }
    for e in [
        AppError::Mail(MailError::Address),
        AppError::Mail(MailError::Compose),
        AppError::Mail(MailError::Smtp),
        AppError::Store(StoreError::Duplicate),
        AppError::Store(StoreError::IdsExhausted),
        AppError::EntropyExhausted,
        check_password("corrupt", "x").unwrap_err(),
    ] {
        assert_eq!(e.status_code(), 500);
        assert_eq!(e.http_reason(), "Internal Server Error");
    }
}

#[test]
fn an_absent_value_becomes_the_error_asked_for() {
    assert_eq!(Some(5).or_400_bad_request().unwrap(), 5);
    assert_eq!(Some("x").or_401_unauthorised().unwrap(), "x");
    assert_eq!(Some(()).or_404_not_found().unwrap(), ());
    assert!(matches!(None::<u8>.or_400_bad_request(), Err(AppError::Status(400))));
    assert!(matches!(None::<u8>.or_401_unauthorised(), Err(AppError::Status(401))));
    assert!(matches!(None::<u8>.or_404_not_found(), Err(AppError::Status(404))));
}

#[test]
fn token_lengths_are_rounded_up() {
    assert_eq!(round_up_token_bytes(0), 18);
    assert_eq!(round_up_token_bytes(15), 18);
    assert_eq!(round_up_token_bytes(16), 18);
    assert_eq!(round_up_token_bytes(18), 18);
    assert_eq!(round_up_token_bytes(19), 21);
    assert_eq!(round_up_token_bytes(21), 21);
    assert_eq!(round_up_token_bytes(32), 33);

    let (raw, hash) = generate_token(16);
    assert_eq!(raw.len(), 24);
    assert_eq!(hash, token_hash(&raw));
    let (raw, _) = generate_token(32);
    assert_eq!(raw.len(), 44);
    assert!(!raw.contains('='));

    let (code, digest) = generate_code(20).unwrap();
    assert_eq!(code.len(), 28);
    assert_eq!(true, check_password(&digest, &code).unwrap());
}

#[test]
fn the_retry_budget() {
    assert_eq!(next_attempt(0, true), Attempt::Accept);
    assert_eq!(next_attempt(31, true), Attempt::Accept);
    assert_eq!(next_attempt(0, false), Attempt::Retry(1));
    assert_eq!(next_attempt(30, false), Attempt::Retry(31));
    assert_eq!(next_attempt(31, false), Attempt::GiveUp);

    assert_eq!(unlikeliness(0), 0);
    assert_eq!(unlikeliness(1), 144);
    assert_eq!(unlikeliness(32), 4608);
}

#[test]
fn exhausted_randomness_is_a_fatal_error() {
    let calls = Cell::new(0);
    let r = generate_session_token(|_| {
        calls.set(calls.get() + 1);
        false
    });
    assert!(matches!(r, Err(AppError::EntropyExhausted)));
    assert_eq!(calls.get(), 32);
    assert_eq!(r.unwrap_err().status_code(), 500);
}

#[test]
fn collisions_are_retried_and_counted() {
    let calls = Cell::new(0);
    let token = generate_unique_token(18, |_| {
        calls.set(calls.get() + 1);
        calls.get() > 3
    })
    .unwrap();
    assert_eq!(token.retries, 3);
    assert_eq!(calls.get(), 4);
    assert_eq!(token.hash, token_hash(&token.raw));

    let calls = Cell::new(0);
    let token = generate_unique_token(18, |_| {
        calls.set(calls.get() + 1);
        calls.get() == 32
    })
    .unwrap();
    assert_eq!(token.retries, 31);

    let token = generate_unique_token(40, |_| true).unwrap();
    assert_eq!(token.retries, 0);
    assert_eq!(token.raw.len(), 56);
}

#[test]
fn mail_templates_by_kind() {

    let t = challenge_template(Challenge::LogIn).unwrap();
    assert_eq!((t.path, t.subject), ("templates/log_in.txt", "Log in"));
    let t = challenge_template(Challenge::ResetPassword).unwrap();
    assert_eq!((t.path, t.subject), ("templates/reset_password.txt", "Reset your password"));
    let t = challenge_template(Challenge::VerifyNewUser).unwrap();
    assert_eq!((t.path, t.subject), ("templates/verify_account.txt", "Verify your account"));
    assert!(challenge_template(Challenge::Custom).is_none());

    let t = notification_template(&Notification::PasswordChanged);
    assert_eq!((t.path, t.subject), ("templates/password_changed.txt", "Your password has been changed"));
    let t = notification_template(&Notification::UserRegistered { temporary_password: "x".to_string() });
    assert_eq!((t.path, t.subject), ("templates/user_registered.txt", "Your account has been created"));
}

#[test]
fn mail_texts_are_templates_filled_in() {

    let user = User {
        id: 1,
        email: "a@example.org".to_string(),
        display_name: "Ann".to_string(),
        is_admin: false,
    };
    assert_eq!(
        compose_challenge("Hello {{display_name}},\nfollow {{link}} to go on.", &user, "https://x/verify?id=1&code=c"),
        "Hello Ann,\nfollow https://x/verify?id=1&code=c to go on."
    );
    // What the values do not name stays as it is.
    assert_eq!(compose_challenge("{{link}} {{other}} {link}", &user, "L"), "L {{other}} {link}");
    assert_eq!(compose_challenge("nothing to fill in", &user, "L"), "nothing to fill in");

    let notice = Notification::UserRegistered { temporary_password: "s3cret".to_string() };
    assert_eq!(
        compose_notification("{{display_name}}: {{temporary_password}}", &user, &notice),
        "Ann: s3cret"
    );
    assert_eq!(
        compose_notification("{{display_name}}: {{temporary_password}}", &user, &Notification::PasswordChanged),
        "Ann: {{temporary_password}}"
    );
}
