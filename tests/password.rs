use auth_domain::password::{Password, PasswordError};

#[test]
fn test_validate_password_success() {
    let test_cases = vec![
        "Password123",
        "Mix3dPassw0rd",
        "MixedCase123",
        "12cdefghij",
        "abcd1234",
        "ABCD1234",
        "abc123DEF",
        "123456aB",
    ];
    for value in test_cases {
        let result = Password::validate_password(value);
        assert!(result)
    }
}

#[test]
fn test_validate_password_failed() {
    let test_cases = vec![
        "",
        "a",
        "1",
        "abcdef1",
        "   ",
        "abc def",
        "!@#$%^&",
        "12345678",
        "abcdefghijk",
        "パスワード123",
        "pass\nword",
        "pass\tword",
    ];
    for value in test_cases {
        let result = Password::validate_password(value);
        assert!(!result)
    }
}

#[test]
fn password_test_from_str_success() {
    let password = "Abcdefg123";
    let result = Password::from_str(password);
    assert!(result.is_ok());
    assert_eq!(password.to_owned(), result.unwrap().to_string())
}

#[test]
fn test_from_str_failed() {
    let error_message = "Validate Error";
    let result = Password::from_str("hoge");
    assert!(result.is_err());
    assert_eq!(error_message.to_owned(), result.unwrap_err().to_string())
}

#[test]
fn password_length_edge() {
    assert!(!Password::validate_password("abcdef1"));
    assert!(Password::validate_password("abcdefg1"));
    assert!(matches!(Password::from_str("abc1"), Err(PasswordError::ValidateFailed)));
}

#[test]
fn password_counts_bytes_and_ascii_only() {
    // Eight bytes with a non-ASCII letter, one ASCII letter and one digit.
    assert!(Password::validate_password("éa1bcde"));
    // Full-width digits are no ASCII digits.
    assert!(!Password::validate_password("abcdefgh１２"));
}
