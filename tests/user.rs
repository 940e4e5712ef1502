use auth_domain::email::EmailError;
use auth_domain::entity_id::EntityIdError;
use auth_domain::name::NameError;
use auth_domain::user::User;
use auth_domain::user_error::UserError;
use auth_domain::user_type::{UserType, UserTypeError};

const ID: &str = "usr_123e4567-e89b-12d3-a456-426614174000";

#[test]
fn test_user_build_success() {
    let profile_icon = Some("avatar.jpg".to_string());
    let user = User::build(ID, "test@example.com", "Test User", 1, profile_icon.clone()).unwrap();
    assert_eq!(user.user_id().to_string(), ID);
    assert_eq!(user.email().to_string(), "test@example.com");
    assert_eq!(user.name().to_string(), "Test User");
    assert_eq!(user.user_type().to_usize(), 1);
    assert_eq!(user.user_type(), UserType::Registered);
    assert_eq!(user.profile_icon_path(), &profile_icon);
}

#[test]
fn test_user_build_without_icon() {
    let user = User::build(
        "usr_123e4567-e89b-12d3-a456-426614174000",
        "test@example.com",
        "Test User",
        1,
        None,
    )
    .unwrap();
    assert!(user.profile_icon_path().is_none());
}

#[test]
fn test_user_build_empty_name() {
    let result = User::build(
        "usr_123e4567-e89b-12d3-a456-426614174000",
        "test@example.com",
        "",
        1,
        None,
    );
    assert!(result.is_err());
}

#[test]
fn test_user_build_empty_email() {
    let result = User::build(
        "usr_123e4567-e89b-12d3-a456-426614174000",
        "",
        "Test User",
        1,
        None,
    );

    assert!(result.is_err());
}

#[test]
fn test_user_build_zero_user_type() {
    let result = User::build(
        "usr_123e4567-e89b-12d3-a456-426614174000",
        "test@example.com",
        "Test User",
        0,
        None,
    );
    assert!(result.is_err());
}

#[test]
fn user_build_stops_at_email() {
    let result = User::build(ID, "not-an-email", "Test User", 1, None);
    assert!(matches!(result, Err(UserError::EmailError(EmailError::ValidateFailed))));
    // Every later field is bad too: the email error still wins.
    let result = User::build(ID, "not-an-email", "", 0, None);
    assert!(matches!(result, Err(UserError::EmailError(EmailError::ValidateFailed))));
}

#[test]
fn user_build_stops_at_id() {
    let result = User::build("usr_nope", "not-an-email", "", 0, None);
    assert!(matches!(result, Err(UserError::EntityIdError(EntityIdError::InvalidUuid))));
    let result = User::build("", "test@example.com", "Test User", 1, None);
    assert!(matches!(result, Err(UserError::EntityIdError(EntityIdError::InvalidFormat))));
}

#[test]
fn user_build_name_then_type_errors() {
    let result = User::build(ID, "test@example.com", "", 0, None);
    assert_eq!(
        result.unwrap_err(),
        UserError::NameError(NameError::InvalidValidateName(String::new()))
    );
    let result = User::build(ID, "test@example.com", "Test User", 3, None);
    assert_eq!(
        result.unwrap_err(),
        UserError::UserTypeError(UserTypeError::InvalidValue("3".to_string()))
    );
}

#[test]
fn tset_map_to_domain_model() {
    let v = User::from_record(
        "usr_550e8400-e29b-41d4-a716-446655440000",
        "hoge123@email.com",
        "hoge",
        "1",
        "../../".to_string(),
    )
    .unwrap();
    assert_eq!(v.user_id().to_string(), "usr_550e8400-e29b-41d4-a716-446655440000");
    assert_eq!(v.email().to_string(), "hoge123@email.com");
    assert_eq!(v.name().to_string(), "hoge");
    assert_eq!(v.user_type().to_string(), "1");
    assert_eq!(v.profile_icon_path().clone().unwrap(), "../../");
}

#[test]
fn from_record_refuses_unknown_type_text_first() {
    let result = User::from_record("bad", "bad", "", "x", String::new());
    assert_eq!(
        result.unwrap_err(),
        UserError::UserTypeError(UserTypeError::InvalidValue("x".to_string()))
    );
    let user = User::from_record(ID, "a@b.cd", "n", "2", "0".to_string()).unwrap();
    assert_eq!(user.user_type(), UserType::Guest);
}

#[test]
fn user_error_from_leaf_errors() {
    assert_eq!(
        UserError::from(EmailError::ValidateFailed),
        UserError::EmailError(EmailError::ValidateFailed)
    );
    assert_eq!(
        UserError::from(EntityIdError::InvalidUuid),
        UserError::EntityIdError(EntityIdError::InvalidUuid)
    );
}
