use vstd::prelude::*;

verus! {

/// An error of the `password-hash` crate: a stored digest that is not a PHC
/// string, or a hashing run that failed.
#[verifier::external_type_specification]
#[verifier::external_body]
pub struct ExPasswordHashError(password_hash::Error);

/// Why the mailer could not deliver a message.
#[derive(Debug, Clone, Copy, PartialEq, Eq, Structural)]
pub enum MailError {
    /// A sender or recipient address did not parse.
    Address,
    /// The message could not be composed.
    Compose,
    /// The transport refused or lost the message.
    Smtp,
}

/// An authorization failure. Each is answered with `401 Unauthorized`, and
/// none says more to the client than that.
#[derive(Debug, Clone, Copy, PartialEq, Eq, Structural)]
pub enum AuthError {
    /// The user has not yet verified their email address.
    EmailNotVerified,
    /// The challenge does not exist, has expired, or the code is wrong.
    IncorrectChallengeCode,
    /// No valid session accompanies the request.
    NotAuthenticated,
    /// The user must choose a new password before continuing.
    RequirePasswordChange,
}

/// A failure of the storage layer.
#[derive(Debug, Clone, Copy, PartialEq, Eq, Structural)]
pub enum StoreError {
    /// A row with the same unique key (token fingerprint, email) exists.
    Duplicate,
    /// The table has handed out its last id.
    IdsExhausted,
}

/// The errors of the application.
#[derive(Debug)]
pub enum AppError {
    /// A plain HTTP status, such as `400 Bad Request`.
    Status(u16),
    /// An authorization failure.
    Auth(AuthError),
    /// A message could not be delivered.
    Mail(MailError),
    /// A stored digest is corrupt, or hashing failed.
    Hash(password_hash::Error),
    /// The storage layer failed.
    Store(StoreError),
    /// The randomness source kept producing tokens that already exist. This
    /// is fatal: the process should raise an alert, not retry.
    EntropyExhausted,
}

pub const BAD_REQUEST: u16 = 400;
pub const UNAUTHORIZED: u16 = 401;
pub const NOT_FOUND: u16 = 404;
pub const INTERNAL_SERVER_ERROR: u16 = 500;

/// The standard reason phrase of an HTTP status code, where it has one.
pub uninterp spec fn canonical_reason(code: u16) -> Option<Seq<char>>;

/// Calls `StatusCode::from_u16` and `StatusCode::canonical_reason` of the
/// `http` crate, as `actix-web` re-exports it. The contract names the phrase;
/// a number that is no status code has none.
#[verifier::external_body]
fn reason_phrase(code: u16) -> (phrase: Option<String>)
    ensures
        phrase is Some <==> canonical_reason(code) is Some,
        phrase matches Some(p) ==> canonical_reason(code) == Some(p@),
{
    let status = actix_web::http::StatusCode::from_u16(code).ok()?;
    status.canonical_reason().map(str::to_owned)
}

impl AuthError {
    pub open spec fn spec_status_code(self) -> u16 {
        UNAUTHORIZED
    }

    /// The HTTP status that answers this failure.
    pub fn status_code(&self) -> (code: u16)
        ensures
            code == self.spec_status_code(),
    {
        UNAUTHORIZED
    }
}

impl AppError {
    pub open spec fn spec_status_code(self) -> u16 {
        match self {
            AppError::Auth(err) => err.spec_status_code(),
            AppError::Status(code) => code,
            _ => INTERNAL_SERVER_ERROR,
        }
    }

    /// The text shown to the client: the reason phrase of the status, and
    /// nothing of the error's detail.
    pub open spec fn spec_http_reason(self) -> Seq<char> {
        match canonical_reason(self.spec_status_code()) {
            Some(phrase) => phrase,
            None => "Unknown error"@,
        }
    }

    /// The HTTP status that answers this error. Authorization failures and
    /// plain statuses carry their own; everything else is an internal error.
    pub fn status_code(&self) -> (code: u16)
        ensures
            code == self.spec_status_code(),
    {
        match self {
            AppError::Auth(err) => err.status_code(),
            AppError::Status(code) => *code,
            _ => INTERNAL_SERVER_ERROR,
        }
    }

    pub fn http_reason(&self) -> (reason: String)
        ensures
            reason@ == self.spec_http_reason(),
    {
        match reason_phrase(self.status_code()) {
            Some(phrase) => phrase,
            None => "Unknown error".to_owned(),
        }
    }
}

/// Authorization failures look alike to the client: whatever the reason,
/// the status and the text are the same.
pub proof fn lemma_authorization_failures_look_alike(a: AuthError, b: AuthError)
    ensures
        AppError::Auth(a).spec_status_code() == AppError::Auth(b).spec_status_code(),
        AppError::Auth(a).spec_status_code() == UNAUTHORIZED,
        AppError::Auth(a).spec_http_reason() == AppError::Auth(b).spec_http_reason(),
        AppError::Auth(a).spec_http_reason() == AppError::Status(UNAUTHORIZED).spec_http_reason(),
{
}

/// Turns an absent value into the error that answers the request.
pub trait OrAppError<T> {
    fn or_400_bad_request(self) -> Result<T, AppError>;

    fn or_401_unauthorised(self) -> Result<T, AppError>;

    fn or_404_not_found(self) -> Result<T, AppError>;
}

impl<T> OrAppError<T> for Option<T> {
    /// `None` becomes `400 Bad Request`.
    fn or_400_bad_request(self) -> (r: Result<T, AppError>)
        ensures
            r == match self {
                Some(v) => Ok::<T, AppError>(v),
                None => Err(AppError::Status(BAD_REQUEST)),
            },
    {
        match self {
            Some(v) => Ok(v),
            None => Err(AppError::Status(BAD_REQUEST)),
        }
    }

    /// `None` becomes `401 Unauthorized`.
    fn or_401_unauthorised(self) -> (r: Result<T, AppError>)
        ensures
            r == match self {
                Some(v) => Ok::<T, AppError>(v),
                None => Err(AppError::Status(UNAUTHORIZED)),
            },
    {
        match self {
            Some(v) => Ok(v),
            None => Err(AppError::Status(UNAUTHORIZED)),
        }
    }

    /// `None` becomes `404 Not Found`.
    fn or_404_not_found(self) -> (r: Result<T, AppError>)
        ensures
            r == match self {
                Some(v) => Ok::<T, AppError>(v),
                None => Err(AppError::Status(NOT_FOUND)),
            },
    {
        match self {
            Some(v) => Ok(v),
            None => Err(AppError::Status(NOT_FOUND)),
        }
    }
}

} // verus!
