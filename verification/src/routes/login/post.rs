//! The answer to a login attempt.
//!
//! Checking the credentials is the caller's part. What the visitor is told,
//! and where the browser is sent, is decided here.

use crate::secret::SecretString;
use vstd::prelude::*;
use vstd::string::*;

verus! {

/// The login form.
#[derive(Debug)]
pub struct FormData {
    pub username: String,
    pub password: SecretString,
}

/// A username and a password, to be checked.
#[derive(Debug)]
pub struct Credentials {
    pub username: String,
    pub password: SecretString,
}

impl FormData {
    /// The credentials that the form holds.
    pub fn credentials(self) -> (credentials: Credentials)
        ensures
            credentials.username@ == self.username@,
            credentials.password@ == self.password@,
    {
        Credentials { username: self.username, password: self.password }
    }
}

/// Why the credentials were not accepted, with the cause in words.
#[derive(Debug)]
pub enum AuthError {
    /// The username is unknown or the password is wrong.
    InvalidCredentials(String),
    /// The check itself failed.
    UnexpectedError(String),
}

/// Why a login failed, with the cause in words.
#[derive(Debug)]
pub enum LoginError {
    AuthError(String),
    UnexpectedError(String),
}

/// What a [`LoginError`] says.
pub enum LoginErrorView {
    AuthError(Seq<char>),
    UnexpectedError(Seq<char>),
}

impl View for LoginError {
    type V = LoginErrorView;

    open spec fn view(&self) -> LoginErrorView {
        match self {
            LoginError::AuthError(cause) => LoginErrorView::AuthError(cause@),
            LoginError::UnexpectedError(cause) => LoginErrorView::UnexpectedError(cause@),
        }
    }
}

/// What a [`LoginError`] tells the visitor. The cause is kept out of it.
pub open spec fn login_message(error: LoginErrorView) -> Seq<char> {
    match error {
        LoginErrorView::AuthError(_) => "Authentication failed"@,
        LoginErrorView::UnexpectedError(_) => "Something went wrong"@,
    }
}

/// The status of every answer to a login: 303 See Other.
pub const SEE_OTHER: u16 = 303;

impl LoginError {
    /// What the visitor is told.
    pub fn message(&self) -> (text: &'static str)
        ensures
            text@ == login_message(self@),
    {
        match self {
            LoginError::AuthError(_) => "Authentication failed",
            LoginError::UnexpectedError(_) => "Something went wrong",
        }
    }

    /// The status of the answer that reports this error.
    pub fn status_code(&self) -> (status: u16)
        ensures
            status == SEE_OTHER,
    {
        SEE_OTHER
    }
}

/// A redirect, with the cookie that it sets, if it sets one.
#[derive(Debug)]
pub struct Redirect {
    pub status: u16,
    pub location: String,
    pub set_cookie: Option<String>,
}

/// What a [`Redirect`] says.
pub struct RedirectView {
    pub status: u16,
    pub location: Seq<char>,
    pub set_cookie: Option<Seq<char>>,
}

impl View for Redirect {
    type V = RedirectView;

    open spec fn view(&self) -> RedirectView {
        RedirectView {
            status: self.status,
            location: self.location@,
            set_cookie: match self.set_cookie {
                Some(cookie) => Some(cookie@),
                None => None,
            },
        }
    }
}

/// A failed login: the error, and the answer that reports it.
#[derive(Debug)]
pub struct LoginFailure {
    pub error: LoginError,
    pub response: Redirect,
}

/// The answer to a login that succeeded: on to the home page.
pub open spec fn welcome() -> RedirectView {
    RedirectView { status: SEE_OTHER, location: "/"@, set_cookie: None }
}

/// The answer to a login that failed: back to the login form, with the
/// error's message in the `_flash` cookie.
pub open spec fn rejection(error: LoginErrorView) -> RedirectView {
    RedirectView {
        status: SEE_OTHER,
        location: "/login"@,
        set_cookie: Some("_flash="@ + login_message(error)),
    }
}

/// The login error for a failed check: the kind and the cause are kept.
pub open spec fn login_error_of(error: AuthError) -> LoginErrorView {
    match error {
        AuthError::InvalidCredentials(cause) => LoginErrorView::AuthError(cause@),
        AuthError::UnexpectedError(cause) => LoginErrorView::UnexpectedError(cause@),
    }
}

/// Answers a login attempt, given what the check of the credentials said.
///
/// A success sends the browser to `/`. A failure sends it back to `/login`,
/// and says why in the `_flash` cookie.
pub fn login(checked: Result<(), AuthError>) -> (answer: Result<Redirect, LoginFailure>)
    ensures
        match checked {
            Ok(_) => answer matches Ok(redirect) && redirect@ == welcome(),
            Err(e) => answer matches Err(failure) && failure.error@ == login_error_of(e)
                && failure.response@ == rejection(login_error_of(e)),
        },
{
    match checked {
        Ok(_) => Ok(
            Redirect { status: SEE_OTHER, location: String::from_str("/"), set_cookie: None },
        ),
        Err(e) => {
            let e = match e {
                AuthError::InvalidCredentials(cause) => LoginError::AuthError(cause),
                AuthError::UnexpectedError(cause) => LoginError::UnexpectedError(cause),
            };
            let mut cookie = String::from_str("_flash=");
            cookie.append(e.message());
            let response = Redirect {
                status: SEE_OTHER,
                location: String::from_str("/login"),
                set_cookie: Some(cookie),
            };
            Err(LoginFailure { error: e, response })
        },
    }
}

} // verus!
