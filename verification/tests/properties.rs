use password_checker::PasswordChecker;

#[test]
fn empty_checker_accepts_anything() {
    let checker = PasswordChecker::new();
    assert!(checker.validate("").is_ok());
    assert!(checker.validate("anything at all").is_ok());
    assert!(checker.validate("pässwörd").is_ok());
}

#[test]
fn one_message_per_violated_rule_in_rule_order() {
    let checker = PasswordChecker::new()
        .require_number(None)
        .min_length(4, None)
        .require_upper_lower(None)
        .require_special_char(None);

    // "zz" violates every rule but none twice.
    let errors = checker.validate("zz").unwrap_err();
    assert_eq!(
        errors,
        vec![
            "Password must include at least one number.".to_string(),
            "Password must be at least 4 characters long.".to_string(),
            "Password must include both uppercase and lowercase letters.".to_string(),
            "Password must include at least one special character.".to_string(),
        ]
    );

    // "A9" satisfies the digit rule and the upper/lower rule is still
    // violated: exactly the two violated rules report, in rule order.
    let errors = checker.validate("A9").unwrap_err();
    assert_eq!(
        errors,
        vec![
            "Password must be at least 4 characters long.".to_string(),
            "Password must include both uppercase and lowercase letters.".to_string(),
            "Password must include at least one special character.".to_string(),
        ]
    );
}

#[test]
fn min_length_boundary() {
    let checker = PasswordChecker::new().min_length(5, None);
    assert!(checker.validate("abcd").is_err());
    assert!(checker.validate("abcde").is_ok());
    assert!(checker.validate("abcdef").is_ok());
}

#[test]
fn min_length_zero_always_passes() {
    let checker = PasswordChecker::new().min_length(0, None);
    assert!(checker.validate("").is_ok());
}

#[test]
fn min_length_counts_bytes() {
    // 'é' takes two bytes in UTF-8, so "héllo" is six bytes long.
    let checker = PasswordChecker::new().min_length(6, None);
    assert!(checker.validate("héllo").is_ok());
    let checker = PasswordChecker::new().min_length(7, None);
    assert!(checker.validate("héllo").is_err());
}

#[test]
fn min_length_default_message_interpolates_threshold() {
    let checker = PasswordChecker::new().min_length(12, None);
    let errors = checker.validate("short").unwrap_err();
    assert_eq!(
        errors,
        vec!["Password must be at least 12 characters long.".to_string()]
    );
}

#[test]
fn upper_lower_rule_cases() {
    let checker = PasswordChecker::new().require_upper_lower(None);
    assert!(checker.validate("alllowercase").is_err());
    assert!(checker.validate("ALLUPPERCASE").is_err());
    assert!(checker.validate("MixedCase").is_ok());
}

#[test]
fn digit_rule_cases() {
    let checker = PasswordChecker::new().require_number(None);
    assert!(checker.validate("NoNumbersHere").is_err());
    assert!(checker.validate("has1digit").is_ok());
}

#[test]
fn special_char_rule_cases() {
    let checker = PasswordChecker::new().require_special_char(None);
    assert!(checker.validate("abcdef").is_err());
    // A space is not in the special-character set.
    assert!(checker.validate("abc def").is_err());
    // A few members of the set, including the less obvious ones.
    assert!(checker.validate("abc@").is_ok());
    assert!(checker.validate("abc\\").is_ok());
    assert!(checker.validate("abc?").is_ok());
    assert!(checker.validate("abc.").is_ok());
    assert!(checker.validate("abc'").is_ok());
    assert!(checker.validate("abc\"").is_ok());
}

#[test]
fn custom_message_used_verbatim() {
    let checker = PasswordChecker::new().min_length(8, Some("custom text"));
    let errors = checker.validate("abc").unwrap_err();
    assert_eq!(errors, vec!["custom text".to_string()]);
}

#[test]
fn end_to_end_all_rules() {
    let checker = PasswordChecker::new()
        .min_length(8, None)
        .require_upper_lower(None)
        .require_number(None)
        .require_special_char(None);

    assert!(checker.validate("Passw0rd!").is_ok());

    let errors = checker.validate("abc").unwrap_err();
    assert_eq!(
        errors,
        vec![
            "Password must be at least 8 characters long.".to_string(),
            "Password must include both uppercase and lowercase letters.".to_string(),
            "Password must include at least one number.".to_string(),
            "Password must include at least one special character.".to_string(),
        ]
    );
}

#[test]
fn validate_is_idempotent() {
    let checker = PasswordChecker::new()
        .min_length(8, None)
        .require_number(Some("needs a digit"));

    let first = checker.validate("abc");
    let second = checker.validate("abc");
    assert_eq!(first, second);

    let first = checker.validate("longenough1");
    let second = checker.validate("longenough1");
    assert_eq!(first, second);
}

#[test]
fn default_messages_are_exact() {
    let checker = PasswordChecker::new()
        .require_upper_lower(None)
        .require_number(None)
        .require_special_char(None);
    let errors = checker.validate("").unwrap_err();
    assert_eq!(
        errors,
        vec![
            "Password must include both uppercase and lowercase letters.".to_string(),
            "Password must include at least one number.".to_string(),
            "Password must include at least one special character.".to_string(),
        ]
    );
}

#[test]
fn large_threshold_message() {
    let checker = PasswordChecker::new().min_length(1000, None);
    let errors = checker.validate("tiny").unwrap_err();
    assert_eq!(
        errors,
        vec!["Password must be at least 1000 characters long.".to_string()]
    );
}
