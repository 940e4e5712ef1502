use vstd::prelude::*;

verus! {

/// The pattern that an email address must match, from its first character to
/// its last.
pub const EMAIL_PATTERN: &'static str =
    "^[a-z0-9]([a-z0-9._%+-]{0,61}[a-z0-9])?@[a-z0-9-]{1,63}(\\.[a-z0-9-]{1,63})*\\.[a-z]{2,6}$";

/// Whether the `regex` crate finds a match of `pattern` in `text`.
pub uninterp spec fn regex_match_of(pattern: Seq<char>, text: Seq<char>) -> bool;

/// Whether `regex::Regex::new` accepts `pattern`.
pub uninterp spec fn regex_compiles_of(pattern: Seq<char>) -> bool;

/// Relies on `regex::Regex::new` and `regex::Regex::is_match`: whether the
/// pattern compiles depends on the pattern alone, and where it compiles,
/// whether it matches depends on the pattern and the text alone; where it
/// does not, the compile error's message comes back.
#[verifier::external_body]
fn regex_is_match(pattern: &str, text: &str) -> (r: Result<bool, String>)
    ensures
        r is Ok <==> regex_compiles_of(pattern@),
        r matches Ok(b) ==> b == regex_match_of(pattern@, text@),
{
    match regex::Regex::new(pattern) {
        Ok(re) => Ok(re.is_match(text)),
        Err(e) => Err(e.to_string()),
    }
}

/// The address pattern compiles. It is a fixed constant, so this holds on
/// every input or on none.
pub open spec fn email_pattern_compiles() -> bool {
    regex_compiles_of(EMAIL_PATTERN@)
}

/// `s` is a well-formed email address.
pub open spec fn is_valid_email(s: Seq<char>) -> bool {
    regex_match_of(EMAIL_PATTERN@, s)
}

/// An email address that matched the address pattern.
#[derive(Debug, Clone, PartialEq, Eq)]
pub struct Email {
    value: String,
}

#[derive(Debug, Clone, PartialEq, Eq)]
pub enum EmailError {
    /// The address pattern did not compile; the compiler's message.
    RegexCompilationFailed(String),
    /// The text is no email address.
    ValidateFailed,
}

impl View for Email {
    type V = Seq<char>;

    closed spec fn view(&self) -> Seq<char> {
        self.value@
    }
}

pub open spec fn email_error_text(e: EmailError) -> Seq<char> {
    match e {
        EmailError::RegexCompilationFailed(m) => "Regex compile failed "@ + m@,
        EmailError::ValidateFailed => "Validate Error"@,
    }
}

impl EmailError {
    pub fn to_string(&self) -> (r: String)
        ensures
            r@ == email_error_text(*self),
    {
        match self {
            EmailError::RegexCompilationFailed(m) => {
                let mut r = String::from_str("Regex compile failed ");
                r.append(m.as_str());
                r
            },
            EmailError::ValidateFailed => String::from_str("Validate Error"),
        }
    }
}

impl Email {
    /// Whether `email` matches the address pattern, or why the pattern did
    /// not compile.
    pub fn validate_email(email: &str) -> (r: Result<bool, EmailError>)
        ensures
            r is Ok <==> email_pattern_compiles(),
            match r {
                Ok(b) => b == is_valid_email(email@),
                Err(e) => e is RegexCompilationFailed,
            },
    {
        match regex_is_match(EMAIL_PATTERN, email) {
            Ok(b) => Ok(b),
            Err(m) => Err(EmailError::RegexCompilationFailed(m)),
        }
    }

    /// Reads an email address; the text is kept as it is.
    pub fn from_str(s: &str) -> (r: Result<Email, EmailError>)
        ensures
            (r is Err && r->Err_0 is RegexCompilationFailed) <==> !email_pattern_compiles(),
            r matches Ok(e) ==> is_valid_email(s@) && e@ == s@,
            r matches Err(EmailError::ValidateFailed) ==> !is_valid_email(s@),
            email_pattern_compiles() ==> (r is Ok <==> is_valid_email(s@)),
    {
        let outcome = Email::validate_email(s);
        Email::from_match(s, outcome)
    }

    /// The address `s`, given what checking it against the address pattern
    /// gave.
    pub fn from_match(s: &str, outcome: Result<bool, EmailError>) -> (r: Result<Email, EmailError>)
        ensures
            match outcome {
                Ok(true) => r matches Ok(e) && e@ == s@,
                Ok(false) => r == Err::<Email, EmailError>(EmailError::ValidateFailed),
                Err(e) => r == Err::<Email, EmailError>(e),
            },
    {
        match outcome {
            Ok(true) => Ok(Email { value: s.to_owned() }),
            Ok(false) => Err(EmailError::ValidateFailed),
            Err(e) => Err(e),
        }
    }

    /// The address, as `Display` shows it.
    pub fn to_string(&self) -> (r: String)
        ensures
            r@ == self@,
    {
        self.value.clone()
    }

    pub fn value(&self) -> (r: &String)
        ensures
            r@ == self@,
    {
        &self.value
    }
}

} // verus!
