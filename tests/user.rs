use moodflow::models::User;

#[test]
fn user_without_pin_or_email() {
    let u = User::create("Ann".to_string(), String::new(), String::new()).unwrap();
    assert_eq!(u.id, None);
    assert_eq!(u.name, "Ann");
    assert!(u.pin_hash.is_none());
    assert!(u.email.is_none());
}

#[test]
fn user_pin_is_kept_only_as_argon2_hash() {
    let u = User::create("Bo".to_string(), "1234".to_string(), "bo@example.com".to_string()).unwrap();
    let hash = u.pin_hash.unwrap();
    assert_ne!(hash, "1234");
    assert!(hash.starts_with("$argon2id$"));
    assert!(!hash.contains("1234"));
    assert_eq!(u.email.as_deref(), Some("bo@example.com"));
}

#[test]
fn same_pin_gives_same_hash() {
    let a = User::create("A".to_string(), "0000".to_string(), String::new()).unwrap();
    let b = User::create("B".to_string(), "0000".to_string(), String::new()).unwrap();
    let c = User::create("C".to_string(), "0001".to_string(), String::new()).unwrap();
    assert_eq!(a.pin_hash, b.pin_hash);
    assert_ne!(a.pin_hash, c.pin_hash);
}

#[test]
fn with_pin_hash_keeps_given_hash() {
    let u = User::with_pin_hash("D".to_string(), Some("h".to_string()), "d@x".to_string());
    assert_eq!(u.pin_hash.as_deref(), Some("h"));
    assert_eq!(u.email.as_deref(), Some("d@x"));
}
