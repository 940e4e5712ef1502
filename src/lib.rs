//! The identity domain: validated value objects (email address, password,
//! display name, user type, typed identifier), the `User` and `AuthUser`
//! aggregates built from them field by field, their errors, and the
//! settings and client secret hash that the server around them needs.

pub mod auth_user;
pub mod email;
pub mod entity_id;
pub mod name;
pub mod password;
pub mod secret_hash;
pub mod settings;
pub mod token;
pub mod user;
pub mod user_error;
pub mod user_id;
pub mod user_type;
