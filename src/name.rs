use vstd::prelude::*;
use vstd::utf8::encode_utf8;

verus! {

/// The most bytes a display name may have.
pub const NAME_MAX_LEN: usize = 20;

/// `s` is at most twenty bytes long in UTF-8.
pub open spec fn is_short_name(s: Seq<char>) -> bool {
    encode_utf8(s).len() <= NAME_MAX_LEN
}

/// `s` is an acceptable display name: short enough, and not empty.
pub open spec fn is_valid_name(s: Seq<char>) -> bool {
    s.len() > 0 && is_short_name(s)
}

/// A display name that meets the name rules.
#[derive(Debug, PartialEq, Eq)]
pub struct Name {
    value: String,
}

#[derive(Debug, Clone, PartialEq, Eq)]
pub enum NameError {
    /// The name that does not meet the name rules.
    InvalidValidateName(String),
}

impl NameError {
    pub fn to_string(&self) -> (r: String)
        ensures
            r@ == "Invalid validate name "@ + self->InvalidValidateName_0@,
    {
        match self {
            NameError::InvalidValidateName(s) => {
                let mut r = String::from_str("Invalid validate name ");
                r.append(s.as_str());
                r
            },
        }
    }
}

impl View for Name {
    type V = Seq<char>;

    closed spec fn view(&self) -> Seq<char> {
        self.value@
    }
}

impl Clone for Name {
    fn clone(&self) -> (r: Name)
        ensures
            r@ == self@,
    {
        proof {
            use_type_invariant(self);
        }
        Name { value: self.value.clone() }
    }
}

impl Name {
    #[verifier::type_invariant]
    closed spec fn well_formed(self) -> bool {
        is_valid_name(self.value@)
    }

    /// The length rule alone; `from_str` refuses the empty name besides.
    pub fn validate_name(name: &str) -> (r: bool)
        ensures
            r == is_short_name(name@),
    {
        name.as_bytes().len() <= NAME_MAX_LEN
    }

    /// Reads a display name; the text is kept as it is.
    pub fn from_str(s: &str) -> (r: Result<Name, NameError>)
        ensures
            match r {
                Ok(n) => is_valid_name(s@) && n@ == s@,
                Err(NameError::InvalidValidateName(t)) => !is_valid_name(s@) && t@ == s@,
            },
    {
        if !s.is_empty() && Name::validate_name(s) {
            Ok(Name { value: s.to_owned() })
        } else {
            Err(NameError::InvalidValidateName(s.to_owned()))
        }
    }

    /// The name, as `Display` shows it.
    pub fn to_string(&self) -> (r: String)
        ensures
            r@ == self@,
            is_valid_name(r@),
    {
        proof {
            use_type_invariant(self);
        }
        self.value.clone()
    }
}

} // verus!
