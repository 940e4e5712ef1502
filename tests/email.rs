use auth_domain::email::{Email, EmailError};

#[test]
fn email_test_from_str_success() {
    let email = "hoge@email.com";
    let result = Email::from_str(email);
    assert!(result.is_ok());
    assert_eq!(email, result.unwrap().value())
}

#[test]
fn test_email_validate_success() {
    let test_cases = vec![
        "simple@example.com",
        "very.common@example.com",
        "disposable.style.email.with+symbol@example.com",
        "other.email-with-hyphen@example.com",
        "fully-qualified-domain@example.com",
        "user.name+tag+sorting@example.com",
        "x@example.com",
        "example-indeed@strange-example.com",
        "user%example.com@example.org",
    ];

    for value in test_cases {
        let result = Email::validate_email(value);
        assert!(result.is_ok());

        let result = result.unwrap();
        assert!(result)
    }
}

#[test]
fn test_email_validate_failed() {
    let test_cases = vec![
        "Password123",
        "StrongP@ssw0rd",
        "aA1!bB2@cC3#",
        "7CharAZ",
        "abcdefG",
        "ABCDEFg",
        "Mix3dPassw0rd",
        "LongPasswordWithUpperAndLowerCase",
        "ShortPW1",
        "UPPER123lower",
        "lower123UPPER",
        "PassWord@2023",
        "Aa1!Bb2@Cc3#Dd4$",
        "ThIs1sAV3ryL0ngAndC0mpl3xP@ssw0rd",
    ];

    for value in test_cases {
        let result = Email::validate_email(value);
        assert!(result.is_ok());
        assert!(!result.unwrap())
    }
}

#[test]
fn email_test_display_success() {
    let email = "fuga@email.com";
    let result = Email::from_str(email).unwrap();
    assert_eq!(email.to_string(), result.to_string())
}

#[test]
fn email_parse_keeps_text() {
    for s in ["a@b.co", "first.last@sub.example.org", "a1-b_c@d-e.fgh"] {
        let e = Email::from_str(s).unwrap();
        assert_eq!(e.to_string(), s);
    }
}

#[test]
fn email_parse_refuses_non_addresses() {
    for s in [
        "",
        "no-at-sign.example.com",
        "Upper@example.com",
        "user@Example.com",
        "user@example",
        "user@example.c",
        "user@example.abcdefg",
        ".user@example.com",
        "user.@example.com",
        "user@@example.com",
        " user@example.com",
    ] {
        assert_eq!(Email::from_str(s), Err(EmailError::ValidateFailed), "{}", s);
    }
}

#[test]
fn email_from_match_follows_outcome() {
    assert_eq!(Email::from_match("x@y.zz", Ok(true)).unwrap().to_string(), "x@y.zz");
    assert_eq!(Email::from_match("x@y.zz", Ok(false)), Err(EmailError::ValidateFailed));
    let e = EmailError::RegexCompilationFailed("bad".to_string());
    assert_eq!(Email::from_match("x@y.zz", Err(e.clone())), Err(e));
}

#[test]
fn email_error_messages() {
    assert_eq!(EmailError::ValidateFailed.to_string(), "Validate Error");
    assert_eq!(
        EmailError::RegexCompilationFailed("oops".to_string()).to_string(),
        "Regex compile failed oops"
    );
}
