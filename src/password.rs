use vstd::prelude::*;
use vstd::string::*;
use vstd::utf8::encode_utf8;

verus! {

/// The fewest bytes a password may have.
pub const PASSWORD_MIN_LEN: usize = 8;

pub open spec fn is_ascii_letter(c: char) -> bool {
    ('a' <= c && c <= 'z') || ('A' <= c && c <= 'Z')
}

pub open spec fn is_ascii_digit(c: char) -> bool {
    '0' <= c && c <= '9'
}

/// `s` is an acceptable password: at least eight bytes long in UTF-8, with
/// an ASCII letter and an ASCII digit among its characters.
pub open spec fn is_valid_password(s: Seq<char>) -> bool {
    &&& encode_utf8(s).len() >= PASSWORD_MIN_LEN
    &&& exists|i: int| 0 <= i < s.len() && is_ascii_letter(#[trigger] s[i])
    &&& exists|i: int| 0 <= i < s.len() && is_ascii_digit(#[trigger] s[i])
}

/// A password that meets the password rules, kept as given.
#[derive(Debug)]
pub struct Password {
    value: String,
}

#[derive(Debug, Clone, Copy, PartialEq, Eq, Structural)]
pub enum PasswordError {
    /// The text does not meet the password rules.
    ValidateFailed,
}

impl PasswordError {
    pub fn to_string(&self) -> (r: String)
        ensures
            r@ == "Validate Error"@,
    {
        String::from_str("Validate Error")
    }
}

impl View for Password {
    type V = Seq<char>;

    closed spec fn view(&self) -> Seq<char> {
        self.value@
    }
}

impl Clone for Password {
    fn clone(&self) -> (r: Password)
        ensures
            r@ == self@,
    {
        proof {
            use_type_invariant(self);
        }
        Password { value: self.value.clone() }
    }
}

impl Password {
    #[verifier::type_invariant]
    closed spec fn well_formed(self) -> bool {
        is_valid_password(self.value@)
    }

    pub fn validate_password(password: &str) -> (r: bool)
        ensures
            r == is_valid_password(password@),
    {
        if password.as_bytes().len() < PASSWORD_MIN_LEN {
            return false;
        }
        let n = password.unicode_len();
        let mut has_letter = false;
        let mut has_digit = false;
        let mut i: usize = 0;
        while i < n
            invariant
                n == password@.len(),
                i <= n,
                has_letter == exists|j: int| 0 <= j < i && is_ascii_letter(#[trigger] password@[j]),
                has_digit == exists|j: int| 0 <= j < i && is_ascii_digit(#[trigger] password@[j]),
            decreases n - i,
        {
            let c = password.get_char(i);
            if ('a' <= c && c <= 'z') || ('A' <= c && c <= 'Z') {
                has_letter = true;
            }
            if '0' <= c && c <= '9' {
                has_digit = true;
            }
            i = i + 1;
        }
        has_letter && has_digit
    }

    /// Reads a password; the text is kept as it is.
    pub fn from_str(s: &str) -> (r: Result<Password, PasswordError>)
        ensures
            match r {
                Ok(p) => is_valid_password(s@) && p@ == s@,
                Err(_) => !is_valid_password(s@),
            },
    {
        if Password::validate_password(s) {
            Ok(Password { value: s.to_owned() })
        } else {
            Err(PasswordError::ValidateFailed)
        }
    }

    /// The password in plain text, as `Display` shows it.
    pub fn to_string(&self) -> (r: String)
        ensures
            r@ == self@,
            is_valid_password(r@),
    {
        proof {
            use_type_invariant(self);
        }
        self.value.clone()
    }
}

} // verus!
