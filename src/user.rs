use vstd::prelude::*;
use crate::email::{email_pattern_compiles, is_valid_email, Email};
use crate::entity_id::EntityIdError;
use crate::name::{is_valid_name, Name, NameError};
use crate::user_error::UserError;
use crate::user_id::{user_id_parse, UserId};
use crate::user_type::{decimal_text, user_type_of_code, user_type_of_text, UserType, UserTypeError};

verus! {

/// What a user holds, as plain values.
pub struct UserView {
    pub user_id: Seq<char>,
    pub email: Seq<char>,
    pub name: Seq<char>,
    pub user_type: UserType,
    pub profile_icon_path: Option<Seq<char>>,
}

/// The characters of an optional text.
pub open spec fn opt_text(o: Option<String>) -> Option<Seq<char>> {
    match o {
        Some(s) => Some(s@),
        None => None,
    }
}

/// A user: identifier, email address, display name, classification and an
/// optional path to a profile icon.
#[derive(Debug, Clone)]
pub struct User {
    user_id: UserId,
    email: Email,
    name: Name,
    user_type: UserType,
    profile_icon_path: Option<String>,
}

impl View for User {
    type V = UserView;

    closed spec fn view(&self) -> UserView {
        UserView {
            user_id: self.user_id@,
            email: self.email@,
            name: self.name@,
            user_type: self.user_type,
            profile_icon_path: opt_text(self.profile_icon_path),
        }
    }
}

/// `r` is what building a user from these inputs gives. The fields are read
/// in the order identifier, email, name, user type; the first that fails
/// gives the error, and those after it are not read. An email address whose
/// pattern could not be compiled fails with that reason.
pub open spec fn build_outcome(
    user_id: Seq<char>,
    email: Seq<char>,
    name: Seq<char>,
    user_type: int,
    profile_icon_path: Option<Seq<char>>,
    r: Result<User, UserError>,
) -> bool {
    match r {
        Ok(u) => {
            &&& user_id_parse(user_id) == Ok::<Seq<char>, EntityIdError>(u@.user_id)
            &&& email_pattern_compiles()
            &&& is_valid_email(email)
            &&& u@.email == email
            &&& is_valid_name(name)
            &&& u@.name == name
            &&& user_type_of_code(user_type) == Some(u@.user_type)
            &&& u@.profile_icon_path == profile_icon_path
        },
        Err(UserError::EntityIdError(e)) => user_id_parse(user_id) == Err::<Seq<char>, EntityIdError>(
            e,
        ),
        Err(UserError::EmailError(e)) => {
            &&& user_id_parse(user_id) is Ok
            &&& (e is RegexCompilationFailed <==> !email_pattern_compiles())
            &&& !(e is RegexCompilationFailed) ==> !is_valid_email(email)
        },
        Err(UserError::NameError(NameError::InvalidValidateName(s))) => {
            &&& user_id_parse(user_id) is Ok
            &&& email_pattern_compiles()
            &&& is_valid_email(email)
            &&& !is_valid_name(name)
            &&& s@ == name
        },
        Err(UserError::UserTypeError(UserTypeError::InvalidValue(s))) => {
            &&& user_id_parse(user_id) is Ok
            &&& email_pattern_compiles()
            &&& is_valid_email(email)
            &&& is_valid_name(name)
            &&& user_type_of_code(user_type) is None
            &&& user_type >= 0 && s@ == decimal_text(user_type as nat)
        },
        Err(_) => false,
    }
}

impl User {
    fn new(
        user_id: UserId,
        email: Email,
        name: Name,
        user_type: UserType,
        profile_icon_path: Option<String>,
    ) -> (r: User)
        ensures
            r@ == (UserView {
                user_id: user_id@,
                email: email@,
                name: name@,
                user_type,
                profile_icon_path: opt_text(profile_icon_path),
            }),
    {
        User { user_id, email, name, user_type, profile_icon_path }
    }

    /// Builds a user from raw inputs, reading the identifier, then the email
    /// address, then the name, then the user type code, and stopping at the
    /// first that fails.
    pub fn build(
        user_id: &str,
        email: &str,
        name: &str,
        user_type: usize,
        profile_icon_path: Option<String>,
    ) -> (r: Result<User, UserError>)
        ensures
            build_outcome(
                user_id@,
                email@,
                name@,
                user_type as int,
                opt_text(profile_icon_path),
                r,
            ),
    {
        let user_id = match UserId::from_str(user_id) {
            Ok(id) => id,
            Err(e) => return Err(UserError::EntityIdError(e)),
        };
        let email = match Email::from_str(email) {
            Ok(e) => e,
            Err(e) => return Err(UserError::EmailError(e)),
        };
        let name = match Name::from_str(name) {
            Ok(n) => n,
            Err(e) => return Err(UserError::NameError(e)),
        };
        let user_type = match UserType::from_usize(user_type) {
            Ok(t) => t,
            Err(e) => return Err(UserError::UserTypeError(e)),
        };
        Ok(User::new(user_id, email, name, user_type, profile_icon_path))
    }

    /// Builds a user from the text fields of a stored record: the user type
    /// is its text form, and the icon path is always present. A user type
    /// text other than "1" or "2" fails first, with that text.
    pub fn from_record(
        user_id: &str,
        email: &str,
        name: &str,
        user_type: &str,
        profile_icon_path: String,
    ) -> (r: Result<User, UserError>)
        ensures
            match user_type_of_text(user_type@) {
                None => r matches Err(UserError::UserTypeError(UserTypeError::InvalidValue(s)))
                    && s@ == user_type@,
                Some(t) => build_outcome(
                    user_id@,
                    email@,
                    name@,
                    crate::user_type::code_of(t),
                    Some(profile_icon_path@),
                    r,
                ),
            },
    {
        proof {
            reveal_strlit("1");
            reveal_strlit("2");
            assert("1"@ =~= seq!['1']);
            assert("2"@ =~= seq!['2']);
        }
        let code: usize = if user_type.to_owned() == String::from_str("1") {
            1
        } else if user_type.to_owned() == String::from_str("2") {
            2
        } else {
            return Err(UserError::UserTypeError(UserTypeError::InvalidValue(user_type.to_owned())));
        };
        User::build(user_id, email, name, code, Some(profile_icon_path))
    }

    pub fn user_id(&self) -> (r: &UserId)
        ensures
            r@ == self@.user_id,
    {
        &self.user_id
    }

    pub fn email(&self) -> (r: &Email)
        ensures
            r@ == self@.email,
    {
        &self.email
    }

    pub fn name(&self) -> (r: &Name)
        ensures
            r@ == self@.name,
    {
        &self.name
    }

    pub fn user_type(&self) -> (r: UserType)
        ensures
            r == self@.user_type,
    {
        self.user_type
    }

    pub fn profile_icon_path(&self) -> (r: &Option<String>)
        ensures
            opt_text(*r) == self@.profile_icon_path,
    {
        &self.profile_icon_path
    }
}

} // verus!
