use auth_domain::name::{Name, NameError};

#[test]
fn name_test_from_str_success() {
    let result = Name::from_str("hoge");
    assert!(result.is_ok());
    assert_eq!(String::from("hoge"), result.unwrap().to_string())
}

#[test]
fn name_test_display_success() {
    let result = Name::from_str("hoge").unwrap();
    assert_eq!("hoge".to_string(), result.to_string())
}

#[test]
fn name_length_edges() {
    assert!(Name::validate_name("a"));
    assert!(Name::validate_name("abcdefghijklmnopqrst"));
    assert!(!Name::validate_name("abcdefghijklmnopqrstu"));
    // The length rule alone accepts the empty name; reading a name refuses it.
    assert!(Name::validate_name(""));
    assert_eq!(
        Name::from_str(""),
        Err(NameError::InvalidValidateName(String::new()))
    );
}

#[test]
fn name_error_message() {
    let e = Name::from_str("abcdefghijklmnopqrstuvwxyz").unwrap_err();
    assert_eq!(e.to_string(), "Invalid validate name abcdefghijklmnopqrstuvwxyz");
}
