use vstd::prelude::*;
use crate::email::EmailError;
use crate::entity_id::EntityIdError;
use crate::name::NameError;
use crate::user_type::UserTypeError;

verus! {

/// Why a user could not be built, found, created or updated.
#[derive(Debug, Clone, PartialEq, Eq)]
pub enum UserError {
    EmailError(EmailError),
    NameError(NameError),
    EntityIdError(EntityIdError),
    UserTypeError(UserTypeError),
    /// The lookup of a user failed; the reason.
    FindByIdError(String),
    /// Storing a new user failed; the reason.
    CreateUserError(String),
    /// Storing a changed user failed; the reason.
    UpdateUserError(String),
}

impl From<EmailError> for UserError {
    fn from(e: EmailError) -> (r: UserError) {
        UserError::EmailError(e)
    }
}

impl vstd::std_specs::convert::FromSpecImpl<EmailError> for UserError {
    open spec fn obeys_from_spec() -> bool {
        true
    }

    open spec fn from_spec(e: EmailError) -> UserError {
        UserError::EmailError(e)
    }
}

impl From<NameError> for UserError {
    fn from(e: NameError) -> (r: UserError) {
        UserError::NameError(e)
    }
}

impl vstd::std_specs::convert::FromSpecImpl<NameError> for UserError {
    open spec fn obeys_from_spec() -> bool {
        true
    }

    open spec fn from_spec(e: NameError) -> UserError {
        UserError::NameError(e)
    }
}

impl From<EntityIdError> for UserError {
    fn from(e: EntityIdError) -> (r: UserError) {
        UserError::EntityIdError(e)
    }
}

impl vstd::std_specs::convert::FromSpecImpl<EntityIdError> for UserError {
    open spec fn obeys_from_spec() -> bool {
        true
    }

    open spec fn from_spec(e: EntityIdError) -> UserError {
        UserError::EntityIdError(e)
    }
}

impl From<UserTypeError> for UserError {
    fn from(e: UserTypeError) -> (r: UserError) {
        UserError::UserTypeError(e)
    }
}

impl vstd::std_specs::convert::FromSpecImpl<UserTypeError> for UserError {
    open spec fn obeys_from_spec() -> bool {
        true
    }

    open spec fn from_spec(e: UserTypeError) -> UserError {
        UserError::UserTypeError(e)
    }
}

} // verus!
