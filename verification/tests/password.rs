use rust_todo_api::auth::hash_password;
use rust_todo_api::auth::hash_password_with_salt;
use rust_todo_api::auth::verify_password;

#[test]
fn password_verifies_against_its_hash() {
    let hash = hash_password("password123").expect("hash");
    assert!(verify_password(&hash, "password123"));
}

#[test]
fn other_password_does_not_verify() {
    let hash = hash_password("password123").expect("hash");
    assert!(!verify_password(&hash, "password124"));
    assert!(!verify_password(&hash, "Password123"));
    assert!(!verify_password(&hash, ""));
}

#[test]
fn hash_describes_itself() {
    let hash = hash_password("correct horse").expect("hash");
    assert_ne!(hash, "correct horse");
    assert!(hash.starts_with("$argon2id$v=19$m=19456,t=2,p=1$"), "{}", hash);
    assert_eq!(hash.split('$').count(), 6);
}

#[test]
fn two_hashes_of_one_password_differ_and_both_verify() {
    let first = hash_password("same password").expect("hash");
    let second = hash_password("same password").expect("hash");
    assert_ne!(first, second);
    let salt_of = |h: &str| h.split('$').nth(4).map(|s| s.to_string());
    assert_ne!(salt_of(&first), salt_of(&second));
    assert!(verify_password(&first, "same password"));
    assert!(verify_password(&second, "same password"));
}

#[test]
fn malformed_hash_gives_false() {
    assert!(!verify_password("", "password123"));
    assert!(!verify_password("password123", "password123"));
    assert!(!verify_password("$argon2id$", "password123"));
    assert!(!verify_password("$argon2id$v=19$m=19456,t=2,p=1$c2FsdA", "password123"));
    assert!(!verify_password("not a hash at all \u{1f600}", "password123"));
}

#[test]
fn hash_made_elsewhere_verifies() {
    let known = "$argon2id$v=19$m=19456,t=2,p=1$cmFuZG9tc2FsdA$";
    let hash = hash_password("x").expect("hash");
    assert_eq!(&hash[..31], &known[..31]);
    let empty = hash_password("").expect("hash");
    assert!(verify_password(&empty, ""));
    assert!(!verify_password(&empty, " "));
}

#[test]
fn password_with_wide_chars_verifies() {
    let hash = hash_password("p\u{e4}ssw\u{f6}rd \u{1f511}").expect("hash");
    assert!(verify_password(&hash, "p\u{e4}ssw\u{f6}rd \u{1f511}"));
    assert!(!verify_password(&hash, "password \u{1f511}"));
}

#[test]
fn text_without_the_hash_prefix_gives_false() {
    let hash = hash_password("password123").expect("hash");
    assert!(hash.starts_with('$'));
    assert!(!verify_password(&hash[1..], "password123"));
    assert!(!verify_password(&format!(" {}", hash), "password123"));
    assert!(!verify_password("argon2id", ""));
}

#[test]
fn hash_holds_header_salt_and_digest() {
    let hash = hash_password("password123").expect("hash");
    let rest = hash.strip_prefix("$argon2id$v=19$m=19456,t=2,p=1$").expect("header");
    let parts: Vec<&str> = rest.split('$').collect();
    assert_eq!(parts.len(), 2);
    assert_eq!(parts[0].len(), 22);
    assert_eq!(parts[1].len(), 43);
    assert_eq!(hash, format!("$argon2id$v=19$m=19456,t=2,p=1${}${}", parts[0], parts[1]));
}

#[test]
fn hash_under_a_given_salt_holds_that_salt() {
    let hash = hash_password_with_salt("password123", "cmFuZG9tc2FsdA").expect("hash");
    assert!(hash.starts_with("$argon2id$v=19$m=19456,t=2,p=1$cmFuZG9tc2FsdA$"), "{}", hash);
    assert_eq!(hash.len(), "$argon2id$v=19$m=19456,t=2,p=1$cmFuZG9tc2FsdA$".len() + 43);
    assert_ne!(hash, "password123");
    assert!(verify_password(&hash, "password123"));
    assert!(!verify_password(&hash, "password124"));
}

#[test]
fn hash_under_one_salt_is_always_the_same() {
    let first = hash_password_with_salt("password123", "c29tZXNhbHQxMjM0NTY3OA");
    let second = hash_password_with_salt("password123", "c29tZXNhbHQxMjM0NTY3OA");
    assert!(first.is_some());
    assert_eq!(first, second);
    assert_ne!(first, hash_password_with_salt("password124", "c29tZXNhbHQxMjM0NTY3OA"));
}

#[test]
fn hashes_under_different_salts_differ() {
    let first = hash_password_with_salt("password123", "c29tZXNhbHQxMjM0NTY3OA").expect("hash");
    let second = hash_password_with_salt("password123", "b3RoZXJzYWx0MTIzNDU2Nw").expect("hash");
    assert_ne!(first, second);
    assert!(verify_password(&first, "password123"));
    assert!(verify_password(&second, "password123"));
}

#[test]
fn text_that_is_no_salt_gives_no_hash() {
    for salt in ["", "abc", "sa$lt123", "salt with space", "s\u{e9}lsalt", "abcd"] {
        assert_eq!(hash_password_with_salt("password123", salt), None, "{:?}", salt);
    }
    let long = "a".repeat(65);
    assert_eq!(hash_password_with_salt("password123", &long), None);
}

#[test]
fn fresh_hash_is_not_the_password() {
    for password in ["", "x", "password123", "$argon2id$v=19$m=19456,t=2,p=1$"] {
        let hash = hash_password(password).expect("hash");
        assert_ne!(hash, password);
        assert!(verify_password(&hash, password));
    }
}

fn is_base64_char(c: char) -> bool {
    c.is_ascii_alphanumeric() || c == '+' || c == '/'
}

#[test]
fn fresh_salt_is_sixteen_bytes_in_base64() {
    for _ in 0..3 {
        let hash = hash_password("password123").expect("hash");
        let salt: Vec<char> = hash.split('$').nth(4).expect("salt").chars().collect();
        assert_eq!(salt.len(), 22);
        assert!(salt.iter().all(|c| is_base64_char(*c)), "{:?}", salt);
        assert!(matches!(salt[21], 'A' | 'Q' | 'g' | 'w'), "{:?}", salt);
    }
}

#[test]
fn every_salt_of_sixteen_bytes_gives_a_hash() {
    for salt in [
        "AAAAAAAAAAAAAAAAAAAAAA",
        "/////////////////////w",
        "+++++++++++++++++++++Q",
        "abcdefghijklmnopqrstug",
    ] {
        let hash = hash_password_with_salt("password123", salt).expect("hash");
        assert!(hash.starts_with(&format!("$argon2id$v=19$m=19456,t=2,p=1${}$", salt)));
    }
}

#[test]
fn empty_password_is_hashed_under_a_salt_of_sixteen_bytes() {
    let hash = hash_password_with_salt("", "0123456789ABCDEFGHIJKA").expect("hash");
    assert!(verify_password(&hash, ""));
    assert!(!verify_password(&hash, "x"));
}

#[test]
fn salt_that_is_not_of_sixteen_bytes_may_give_none() {
    assert_eq!(hash_password_with_salt("password123", "AAAAAAAAAAAAAAAAAAAAAB"), None);
    assert_eq!(hash_password_with_salt("password123", "....................AA"), None);
    assert_eq!(hash_password_with_salt("password123", "AAAAAAAAAA"), None);
}
