use vstd::prelude::*;

verus! {

/// The classification of a user, with its integer code: 1 for a registered
/// user, 2 for a guest.
#[derive(Debug, Clone, Copy, PartialEq, Eq, Structural)]
pub enum UserType {
    Registered,
    Guest,
}

#[derive(Debug, Clone, PartialEq, Eq)]
pub enum UserTypeError {
    InvalidValue(String),
}

/// The user type that an integer code stands for, if any.
pub open spec fn user_type_of_code(code: int) -> Option<UserType> {
    if code == 1 {
        Some(UserType::Registered)
    } else if code == 2 {
        Some(UserType::Guest)
    } else {
        None
    }
}

/// The integer code of a user type.
pub open spec fn code_of(t: UserType) -> int {
    match t {
        UserType::Registered => 1,
        UserType::Guest => 2,
    }
}

/// The text form of a user type: its code as a decimal digit.
pub open spec fn text_of(t: UserType) -> Seq<char> {
    match t {
        UserType::Registered => seq!['1'],
        UserType::Guest => seq!['2'],
    }
}

/// The user type that a text form stands for, if any.
pub open spec fn user_type_of_text(s: Seq<char>) -> Option<UserType> {
    if s == seq!['1'] {
        Some(UserType::Registered)
    } else if s == seq!['2'] {
        Some(UserType::Guest)
    } else {
        None
    }
}

impl UserType {
    pub fn from_usize(value: usize) -> (r: Result<UserType, UserTypeError>)
        ensures
            match r {
                Ok(t) => user_type_of_code(value as int) == Some(t),
                Err(UserTypeError::InvalidValue(s)) => user_type_of_code(value as int) is None
                    && s@ == decimal_text(value as nat),
            },
    {
        match value {
            1 => Ok(UserType::Registered),
            2 => Ok(UserType::Guest),
            _ => Err(UserTypeError::InvalidValue(usize_text(value))),
        }
    }

    /// Reads a user type from its text form.
    pub fn from_str(s: &str) -> (r: Result<UserType, UserTypeError>)
        ensures
            match r {
                Ok(t) => user_type_of_text(s@) == Some(t),
                Err(UserTypeError::InvalidValue(m)) => user_type_of_text(s@) is None && m@ == s@,
            },
    {
        proof {
            reveal_strlit("1");
            reveal_strlit("2");
            assert("1"@ =~= seq!['1']);
            assert("2"@ =~= seq!['2']);
        }
        if s.to_owned() == String::from_str("1") {
            Ok(UserType::Registered)
        } else if s.to_owned() == String::from_str("2") {
            Ok(UserType::Guest)
        } else {
            Err(UserTypeError::InvalidValue(s.to_owned()))
        }
    }

    /// The text form, as `Display` shows it: "1" or "2".
    pub fn to_string(&self) -> (r: String)
        ensures
            r@ == text_of(*self),
    {
        proof {
            reveal_strlit("1");
            reveal_strlit("2");
            assert("1"@ =~= seq!['1']);
            assert("2"@ =~= seq!['2']);
        }
        match self {
            UserType::Registered => String::from_str("1"),
            UserType::Guest => String::from_str("2"),
        }
    }

    pub fn to_usize(&self) -> (r: usize)
        ensures
            r as int == code_of(*self),
    {
        match self {
            UserType::Registered => 1,
            UserType::Guest => 2,
        }
    }
}

/// The codes 1 and 2 each name a user type, whose text form reads back as
/// that same type and whose code is the code itself; no other code names a
/// user type.
pub proof fn lemma_user_type_round_trip(code: int)
    ensures
        (code == 1 || code == 2) ==> (user_type_of_code(code) matches Some(t) && user_type_of_text(
            text_of(t),
        ) == Some(t) && code_of(t) == code),
        !(code == 1 || code == 2) ==> user_type_of_code(code) is None,
{
    assert(seq!['1'] != seq!['2']) by {
        assert(seq!['1'][0] != seq!['2'][0]);
    }
}

impl UserTypeError {
    pub fn to_string(&self) -> (r: String)
        ensures
            r@ == "Invalid user type value: "@ + self->InvalidValue_0@
                + ". Expected values are 1 (Registered) or 2 (Guest)"@,
    {
        match self {
            UserTypeError::InvalidValue(v) => {
                let mut r = String::from_str("Invalid user type value: ");
                r.append(v.as_str());
                r.append(". Expected values are 1 (Registered) or 2 (Guest)");
                r
            },
        }
    }
}

/// The decimal digit of a number below ten.
pub open spec fn digit_char(d: nat) -> char {
    seq!['0', '1', '2', '3', '4', '5', '6', '7', '8', '9'][d as int]
}

/// The decimal text of a number, without sign or leading zeros.
pub open spec fn decimal_text(n: nat) -> Seq<char>
    decreases n,
{
    if n < 10 {
        seq![digit_char(n)]
    } else {
        decimal_text(n / 10).push(digit_char(n % 10))
    }
}

/// Relies on `usize`'s `Display` (through `ToString`): the decimal text of
/// the number.
#[verifier::external_body]
fn usize_text(n: usize) -> (r: String)
    ensures
        r@ == decimal_text(n as nat),
{
    n.to_string()
}

} // verus!
