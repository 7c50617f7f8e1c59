use user_service::generator::{compose_nickname, NicknameGenerator, NicknameGeneratorImpl};
use user_service::nickname::UserNickname;

#[test]
fn new_and_get_value_should_work() {
    // Given
    let value = "test_nickname".to_string();

    // When
    let nickname = UserNickname::new(value.clone());

    // Then
    assert_eq!(nickname.get_value(), &value);
    assert_eq!(nickname.to_string(), value);
}

#[test]
fn validate_should_succeed_for_valid_nickname() {
    let nickname = UserNickname::new("valid_name".to_string());
    let result = nickname.validate();
    assert!(result.is_ok());
}

#[test]
fn validate_should_succeed_for_min_length_boundary() {
    let nickname = UserNickname::new("a".to_string());
    let result = nickname.validate();
    assert!(result.is_ok());
}

#[test]
fn validate_should_succeed_for_max_length_boundary() {
    let nickname = UserNickname::new("12345678901234567890".to_string());
    let result = nickname.validate();
    assert!(result.is_ok());
}

#[test]
fn validate_should_fail_when_nickname_is_too_short() {
    let nickname = UserNickname::new("".to_string());
    let result = nickname.validate();
    assert!(result.is_err());
    if let Err(error) = result {
        assert_eq!(error.field, "value");
        assert_eq!(error.code, "length");
        assert_eq!(error.min, 1);
        assert_eq!(error.max, 20);
    }
}

#[test]
fn validate_should_fail_when_nickname_is_too_long() {
    let nickname = UserNickname::new("123456789012345678901".to_string());
    let result = nickname.validate();
    assert!(result.is_err());
}

#[test]
fn validate_should_handle_unicode_characters_correctly() {
    let valid_unicode_nickname = UserNickname::new("안녕".to_string());
    let invalid_unicode_nickname =
        UserNickname::new("스무글자닉네임스무글자닉네임스무글자닉네임하나".to_string());
    assert!(valid_unicode_nickname.validate().is_ok());
    assert!(invalid_unicode_nickname.validate().is_err());
}

#[test]
fn twenty_korean_characters_are_accepted() {
    let nickname = UserNickname::new("가나다라마바사아자차카타파하가나다라마바".to_string());
    assert!(nickname.validate().is_ok());
}

#[test]
fn composed_nickname_joins_words_and_number() {
    let nickname = compose_nickname("현명한", "기사", 42);
    assert_eq!(nickname.get_value(), "현명한기사42");
    let nickname = compose_nickname("고요한", "학", 999999);
    assert_eq!(nickname.get_value(), "고요한학999999");
}

#[test]
fn generated_nicknames_are_valid_and_well_formed() {
    let generator = NicknameGeneratorImpl;
    for _ in 0..200 {
        let nickname = generator.generate();
        assert!(nickname.validate().is_ok());
        let value = nickname.get_value();
        let digits: String = value.chars().rev().take_while(|c| c.is_ascii_digit()).collect();
        let digits: String = digits.chars().rev().collect();
        let number: u64 = digits.parse().unwrap();
        assert!((1..=999999).contains(&number));
        assert!(!digits.starts_with('0'));
    }
}
