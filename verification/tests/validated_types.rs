use kleos::types::validated::{NonNegativeInt, PositiveInt, String100, String1000, ValidationError};

#[test]
fn string100_trims_and_keeps_text() {
    let v = String100::create("  hello world \t\n".to_string()).unwrap();
    assert_eq!(v.as_str(), "hello world");
    assert_eq!(v.clone().into_inner(), "hello world".to_string());
    assert_eq!(v.to_string(), "hello world");
}

#[test]
fn string100_refuses_blank_text() {
    assert_eq!(String100::create("".to_string()), Err(ValidationError::Empty));
    assert_eq!(String100::create(" \u{3000}\u{a0}\t".to_string()), Err(ValidationError::Empty));
}

#[test]
fn string100_counts_characters() {
    let exact = "a".repeat(100);
    assert!(String100::create(exact.clone()).is_ok());
    let long = "a".repeat(101);
    assert_eq!(
        String100::create(long),
        Err(ValidationError::TooLong { max: 100, actual: 101 })
    );
    // 100 characters of two bytes each are 100 characters.
    assert_eq!(String100::create("é".repeat(100)).unwrap().as_str().chars().count(), 100);
    assert_eq!(
        String100::create(format!(" {} ", "é".repeat(101))),
        Err(ValidationError::TooLong { max: 100, actual: 101 })
    );
}

#[test]
fn string1000_bounds() {
    assert!(String1000::create(format!("  {}  ", "x".repeat(1000))).is_ok());
    assert_eq!(
        String1000::create("x".repeat(1001)),
        Err(ValidationError::TooLong { max: 1000, actual: 1001 })
    );
    assert_eq!(String1000::create("\n".to_string()), Err(ValidationError::Empty));
}

#[test]
fn revalidating_a_valid_value_gives_it_back() {
    let v = String100::create("  keep me  ".to_string()).unwrap();
    let again = String100::create(v.clone().into_inner()).unwrap();
    assert_eq!(again, v);
}

#[test]
fn validation_error_messages() {
    assert_eq!(
        ValidationError::TooLong { max: 100, actual: 250 }.to_string(),
        "String too long: max 100, got 250"
    );
    assert_eq!(
        ValidationError::TooShort { min: 3, actual: 0 }.to_string(),
        "String too short: min 3, got 0"
    );
    assert_eq!(ValidationError::Empty.to_string(), "String is empty");
    assert_eq!(
        ValidationError::InvalidFormat("bad".to_string()).to_string(),
        "Invalid format: bad"
    );
}

#[test]
fn non_negative_int() {
    assert_eq!(NonNegativeInt::create(0).unwrap().value(), 0);
    assert_eq!(NonNegativeInt::create(42).unwrap().value(), 42);
    assert_eq!(NonNegativeInt::create(i32::MAX).unwrap().to_string(), "2147483647");
    assert!(NonNegativeInt::create(-1).is_none());
    assert!(NonNegativeInt::create(i32::MIN).is_none());
}

#[test]
fn positive_int() {
    assert!(PositiveInt::create(0).is_none());
    assert!(PositiveInt::create(-5).is_none());
    assert_eq!(PositiveInt::create(1).unwrap().value(), 1);
    assert_eq!(PositiveInt::create(1090).unwrap().to_string(), "1090");
    assert!(PositiveInt::create(3).unwrap() < PositiveInt::create(4).unwrap());
}
