use kpvault::generate::{random_password, PasswordPolicy};

#[test]
fn standard_policy_is_twelve_strict_characters() {
    let policy = PasswordPolicy::standard();
    assert_eq!(policy.length, 12);
    assert!(policy.numbers);
    assert!(policy.lowercase_letters);
    assert!(policy.uppercase_letters);
    assert!(policy.symbols);
    assert!(!policy.spaces);
    assert!(!policy.exclude_similar_characters);
    assert!(policy.strict);
}

#[test]
fn random_passwords_follow_the_standard_policy() {
    for _ in 0..50 {
        let password = random_password();
        assert_eq!(password.chars().count(), 12);
        assert!(password.chars().any(|c| c.is_ascii_digit()));
        assert!(password.chars().any(|c| c.is_ascii_lowercase()));
        assert!(password.chars().any(|c| c.is_ascii_uppercase()));
        assert!(password.chars().any(|c| c.is_ascii_punctuation()));
        assert!(password.chars().all(|c| c.is_ascii_graphic()));
    }
}

#[test]
fn random_passwords_differ() {
    assert_ne!(random_password(), random_password());
}
