use auth_domain::user_type::{UserType, UserTypeError};

#[test]
fn test_from_i32_success() {
    let test_cases = vec![1, 2];
    for value in test_cases {
        let result = UserType::from_usize(value);
        assert!(result.is_ok())
    }
}

#[test]
fn test_from_i32_failed() {
    let test_cases = vec![3, 10, 78, 100, 10101010];
    for value in test_cases {
        let result = UserType::from_usize(value);
        assert!(result.is_err())
    }
}

#[test]
fn test_eq_variant() {
    let registerd = UserType::from_usize(1).unwrap();
    let guest = UserType::from_usize(2).unwrap();

    assert_eq!(1, registerd.to_usize());
    assert_eq!(2, guest.to_usize())
}

#[test]
fn user_type_round_trips_through_text() {
    for code in [1usize, 2] {
        let t = UserType::from_usize(code).unwrap();
        assert_eq!(UserType::from_str(&t.to_string()).unwrap(), t);
        assert_eq!(t.to_usize(), code);
    }
    assert_eq!(UserType::Registered.to_string(), "1");
    assert_eq!(UserType::Guest.to_string(), "2");
}

#[test]
fn user_type_refuses_other_codes() {
    assert_eq!(
        UserType::from_usize(0),
        Err(UserTypeError::InvalidValue("0".to_string()))
    );
    assert_eq!(
        UserType::from_usize(10101010),
        Err(UserTypeError::InvalidValue("10101010".to_string()))
    );
    assert_eq!(
        UserType::from_usize(usize::MAX),
        Err(UserTypeError::InvalidValue(usize::MAX.to_string()))
    );
    assert_eq!(
        UserType::from_str("3"),
        Err(UserTypeError::InvalidValue("3".to_string()))
    );
    assert_eq!(
        UserType::from_str("01"),
        Err(UserTypeError::InvalidValue("01".to_string()))
    );
}

#[test]
fn user_type_error_message() {
    assert_eq!(
        UserTypeError::InvalidValue("7".to_string()).to_string(),
        "Invalid user type value: 7. Expected values are 1 (Registered) or 2 (Guest)"
    );
}
