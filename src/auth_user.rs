use vstd::prelude::*;
use crate::email::{email_error_text, email_pattern_compiles, is_valid_email, Email, EmailError};
use crate::password::{is_valid_password, Password, PasswordError};

verus! {

/// Credentials presented to sign up or to sign in: an email address and a
/// password.
#[derive(Debug, Clone)]
pub struct AuthUser {
    email: Email,
    password: Password,
}

/// Why credentials were refused or an authentication step failed.
#[derive(Debug, Clone, PartialEq, Eq)]
pub enum AuthUserError {
    EmailError(EmailError),
    PasswordError(PasswordError),
    /// The identity provider refused the credentials; the reason.
    AuthenticationFailed(String),
    /// The identity provider failed; the reason.
    InternalServerError(String),
    TokenMissing,
    UserAlreadyExists,
    InvalidPassword,
}

pub open spec fn auth_user_error_text(e: AuthUserError) -> Seq<char> {
    match e {
        AuthUserError::EmailError(e) => email_error_text(e),
        AuthUserError::PasswordError(_) => "Validate Error"@,
        AuthUserError::AuthenticationFailed(m) => "Authentication failed: "@ + m@,
        AuthUserError::InternalServerError(m) => "Internal Server Error: "@ + m@,
        AuthUserError::TokenMissing => "Token Missing"@,
        AuthUserError::UserAlreadyExists =>
            "User already exists: An account with this email address is already registered"@,
        AuthUserError::InvalidPassword =>
            "Invalid password: Password does not meet the required criteria"@,
    }
}

impl AuthUserError {
    pub fn to_string(&self) -> (r: String)
        ensures
            r@ == auth_user_error_text(*self),
    {
        match self {
            AuthUserError::EmailError(e) => e.to_string(),
            AuthUserError::PasswordError(e) => e.to_string(),
            AuthUserError::AuthenticationFailed(m) => {
                let mut r = String::from_str("Authentication failed: ");
                r.append(m.as_str());
                r
            },
            AuthUserError::InternalServerError(m) => {
                let mut r = String::from_str("Internal Server Error: ");
                r.append(m.as_str());
                r
            },
            AuthUserError::TokenMissing => String::from_str("Token Missing"),
            AuthUserError::UserAlreadyExists => String::from_str(
                "User already exists: An account with this email address is already registered",
            ),
            AuthUserError::InvalidPassword => String::from_str(
                "Invalid password: Password does not meet the required criteria",
            ),
        }
    }
}

impl From<EmailError> for AuthUserError {
    fn from(e: EmailError) -> (r: AuthUserError) {
        AuthUserError::EmailError(e)
    }
}

impl vstd::std_specs::convert::FromSpecImpl<EmailError> for AuthUserError {
    open spec fn obeys_from_spec() -> bool {
        true
    }

    open spec fn from_spec(e: EmailError) -> AuthUserError {
        AuthUserError::EmailError(e)
    }
}

impl From<PasswordError> for AuthUserError {
    fn from(e: PasswordError) -> (r: AuthUserError) {
        AuthUserError::PasswordError(e)
    }
}

impl vstd::std_specs::convert::FromSpecImpl<PasswordError> for AuthUserError {
    open spec fn obeys_from_spec() -> bool {
        true
    }

    open spec fn from_spec(e: PasswordError) -> AuthUserError {
        AuthUserError::PasswordError(e)
    }
}

impl View for AuthUser {
    type V = (Seq<char>, Seq<char>);

    /// The email address and the password.
    closed spec fn view(&self) -> (Seq<char>, Seq<char>) {
        (self.email@, self.password@)
    }
}

impl AuthUser {
    fn new(email: Email, password: Password) -> (r: AuthUser)
        ensures
            r@ == (email@, password@),
    {
        AuthUser { email, password }
    }

    /// Reads credentials: the email address first, then the password,
    /// stopping at the first that fails.
    pub fn build(email: &str, password: &str) -> (r: Result<AuthUser, AuthUserError>)
        ensures
            match r {
                Ok(a) => {
                    &&& email_pattern_compiles()
                    &&& is_valid_email(email@)
                    &&& is_valid_password(password@)
                    &&& a@ == (email@, password@)
                },
                Err(AuthUserError::EmailError(e)) => {
                    &&& (e is RegexCompilationFailed <==> !email_pattern_compiles())
                    &&& !(e is RegexCompilationFailed) ==> !is_valid_email(email@)
                },
                Err(AuthUserError::PasswordError(e)) => {
                    &&& email_pattern_compiles()
                    &&& is_valid_email(email@)
                    &&& !is_valid_password(password@)
                },
                Err(_) => false,
            },
            email_pattern_compiles() ==> (r is Ok <==> (is_valid_email(email@) && is_valid_password(
                password@,
            ))),
    {
        let email = match Email::from_str(email) {
            Ok(e) => e,
            Err(e) => return Err(AuthUserError::EmailError(e)),
        };
        let password = match Password::from_str(password) {
            Ok(p) => p,
            Err(e) => return Err(AuthUserError::PasswordError(e)),
        };
        Ok(AuthUser::new(email, password))
    }

    pub fn email(&self) -> (r: &Email)
        ensures
            r@ == self@.0,
    {
        &self.email
    }

    pub fn password(&self) -> (r: &Password)
        ensures
            r@ == self@.1,
    {
        &self.password
    }
}

} // verus!
