use rust_todo_api::auth::check_claims;
use rust_todo_api::auth::generate_jwt;
use rust_todo_api::auth::generate_jwt_at;
use rust_todo_api::auth::parse_subject;
use rust_todo_api::auth::verify_jwt;
use rust_todo_api::auth::verify_jwt_at;
use rust_todo_api::auth::Claims;
use rust_todo_api::auth::Decoded;
use rust_todo_api::auth::TokenError;
use rust_todo_api::auth::TOKEN_LIFETIME_SECS;
use rust_todo_api::ident::Id;

const SECRET: &str = "test-secret";
const NOW: i64 = 1_700_000_000;

fn alice() -> Id {
    Id::new(0x550e8400_e29b_41d4_a716_446655440000)
}

fn sign(secret: &str, claims: serde_json::Value) -> String {
    jsonwebtoken::encode(
        &jsonwebtoken::Header::default(),
        &claims,
        &jsonwebtoken::EncodingKey::from_secret(secret.as_bytes()),
    )
    .expect("encode")
}

fn object(fields: Vec<(&str, serde_json::Value)>) -> serde_json::Value {
    let mut map = serde_json::Map::new();
    for (name, value) in fields {
        map.insert(name.to_string(), value);
    }
    serde_json::Value::Object(map)
}

#[test]
fn issue_then_verify_recovers_the_subject() {
    let token = generate_jwt_at(alice(), SECRET, NOW).expect("token");
    assert_eq!(verify_jwt_at(&token, SECRET, NOW), Ok(alice()));
}

#[test]
fn issue_then_verify_at_the_current_time() {
    let token = generate_jwt(alice(), SECRET).expect("token");
    assert_eq!(verify_jwt(&token, SECRET), Ok(alice()));
    let other = Id::new(7);
    let token = generate_jwt(other, SECRET).expect("token");
    assert_eq!(verify_jwt(&token, SECRET), Ok(other));
}

#[test]
fn token_has_three_parts_and_is_not_the_secret() {
    let token = generate_jwt_at(alice(), SECRET, NOW).expect("token");
    assert_eq!(token.split('.').count(), 3);
    assert_ne!(token, SECRET);
    assert_eq!(generate_jwt_at(alice(), SECRET, NOW), Some(token.clone()));
    assert_ne!(generate_jwt_at(alice(), SECRET, NOW + 1), Some(token.clone()));
    assert_ne!(generate_jwt_at(Id::new(1), SECRET, NOW), Some(token.clone()));
    assert_ne!(generate_jwt_at(alice(), "other-secret", NOW), Some(token));
}

#[test]
fn token_carries_subject_and_expiry_a_day_ahead() {
    let token = generate_jwt_at(alice(), SECRET, NOW).expect("token");
    let mut validation = jsonwebtoken::Validation::default();
    validation.validate_exp = false;
    let data = jsonwebtoken::decode::<serde_json::Value>(
        &token,
        &jsonwebtoken::DecodingKey::from_secret(SECRET.as_bytes()),
        &validation,
    )
    .expect("decode");
    assert_eq!(data.header.alg, jsonwebtoken::Algorithm::HS256);
    assert_eq!(
        data.claims.get("sub").and_then(|v| v.as_str()),
        Some("550e8400-e29b-41d4-a716-446655440000")
    );
    assert_eq!(data.claims.get("exp").and_then(|v| v.as_i64()), Some(NOW + 86400));
    assert_eq!(TOKEN_LIFETIME_SECS, 86400);
}

#[test]
fn token_is_valid_until_its_expiry_and_expired_after() {
    let token = generate_jwt_at(alice(), SECRET, NOW).expect("token");
    assert_eq!(verify_jwt_at(&token, SECRET, NOW + 86399), Ok(alice()));
    assert_eq!(verify_jwt_at(&token, SECRET, NOW + 86400), Ok(alice()));
    assert_eq!(verify_jwt_at(&token, SECRET, NOW + 86401), Err(TokenError::Expired));
    assert_eq!(verify_jwt_at(&token, SECRET, i64::MAX), Err(TokenError::Expired));
    assert_eq!(verify_jwt_at(&token, SECRET, 0), Ok(alice()));
    assert_eq!(verify_jwt_at(&token, SECRET, -5), Ok(alice()));
}

#[test]
fn token_with_expiry_in_the_past_is_expired() {
    let token = generate_jwt_at(alice(), SECRET, NOW - 2 * 86400).expect("token");
    assert_eq!(verify_jwt_at(&token, SECRET, NOW), Err(TokenError::Expired));
    let token = generate_jwt_at(alice(), SECRET, 0).expect("token");
    assert_eq!(verify_jwt(&token, SECRET), Err(TokenError::Expired));
}

#[test]
fn expired_token_within_a_minute_is_still_expired() {
    let token = sign(
        SECRET,
        object(vec![
            ("sub", serde_json::Value::from("550e8400-e29b-41d4-a716-446655440000")),
            ("exp", serde_json::Value::from(NOW - 30)),
        ]),
    );
    assert_eq!(verify_jwt_at(&token, SECRET, NOW), Err(TokenError::Expired));
    assert_eq!(verify_jwt_at(&token, SECRET, NOW - 30), Ok(alice()));
}

#[test]
fn token_signed_with_another_secret_is_refused() {
    let token = generate_jwt_at(alice(), "another-secret", NOW).expect("token");
    assert_eq!(verify_jwt_at(&token, SECRET, NOW), Err(TokenError::BadSignature));
    assert_eq!(verify_jwt_at(&token, "another-secret", NOW), Ok(alice()));
    assert_eq!(verify_jwt(&token, SECRET), Err(TokenError::BadSignature));
}

#[test]
fn bad_signature_is_found_before_expiry() {
    let token = generate_jwt_at(alice(), "another-secret", NOW - 2 * 86400).expect("token");
    assert_eq!(verify_jwt_at(&token, SECRET, NOW), Err(TokenError::BadSignature));
}

#[test]
fn tampered_token_is_refused() {
    let token = generate_jwt_at(alice(), SECRET, NOW).expect("token");
    let forged = generate_jwt_at(Id::new(1), SECRET, NOW).expect("token");
    let parts: Vec<&str> = token.split('.').collect();
    let forged_parts: Vec<&str> = forged.split('.').collect();
    let mixed = format!("{}.{}.{}", parts[0], forged_parts[1], parts[2]);
    assert_eq!(verify_jwt_at(&mixed, SECRET, NOW), Err(TokenError::BadSignature));
    let cut = format!("{}.{}.", parts[0], parts[1]);
    assert_eq!(verify_jwt_at(&cut, SECRET, NOW), Err(TokenError::BadSignature));
}

#[test]
fn text_that_is_no_token_is_malformed() {
    for text in ["", "abc", "a.b", "a.b.c", "a.b.c.d", "...", "Bearer x", "\u{1f600}.\u{1f600}.\u{1f600}"] {
        assert_eq!(verify_jwt_at(text, SECRET, NOW), Err(TokenError::Malformed), "{:?}", text);
    }
}

#[test]
fn token_without_expiry_is_malformed() {
    let token = sign(
        SECRET,
        object(vec![("sub", serde_json::Value::from("550e8400-e29b-41d4-a716-446655440000"))]),
    );
    assert_eq!(verify_jwt_at(&token, SECRET, NOW), Err(TokenError::Malformed));
}

#[test]
fn token_without_subject_is_malformed() {
    let token = sign(SECRET, object(vec![("exp", serde_json::Value::from(NOW + 60))]));
    assert_eq!(verify_jwt_at(&token, SECRET, NOW), Err(TokenError::Malformed));
    let token = sign(
        SECRET,
        object(vec![
            ("sub", serde_json::Value::from(17)),
            ("exp", serde_json::Value::from(NOW + 60)),
        ]),
    );
    assert_eq!(verify_jwt_at(&token, SECRET, NOW), Err(TokenError::Malformed));
}

#[test]
fn token_with_fractional_expiry_is_malformed() {
    let token = sign(
        SECRET,
        object(vec![
            ("sub", serde_json::Value::from("550e8400-e29b-41d4-a716-446655440000")),
            ("exp", serde_json::Value::from("tomorrow")),
        ]),
    );
    assert_eq!(verify_jwt_at(&token, SECRET, NOW), Err(TokenError::Malformed));
}

#[test]
fn token_whose_subject_is_no_identifier_has_invalid_subject() {
    let token = sign(
        SECRET,
        object(vec![
            ("sub", serde_json::Value::from("alice@example.com")),
            ("exp", serde_json::Value::from(NOW + 60)),
        ]),
    );
    assert_eq!(verify_jwt_at(&token, SECRET, NOW), Err(TokenError::InvalidSubject));
    assert_eq!(verify_jwt_at(&token, SECRET, NOW + 61), Err(TokenError::Expired));
}

#[test]
fn token_with_extra_claims_is_accepted() {
    let token = sign(
        SECRET,
        object(vec![
            ("sub", serde_json::Value::from("550E8400E29B41D4A716446655440000")),
            ("exp", serde_json::Value::from(NOW + 60)),
            ("role", serde_json::Value::from("admin")),
        ]),
    );
    assert_eq!(verify_jwt_at(&token, SECRET, NOW), Ok(alice()));
}

#[test]
fn token_of_another_algorithm_is_malformed() {
    let token = jsonwebtoken::encode(
        &jsonwebtoken::Header::new(jsonwebtoken::Algorithm::HS512),
        &object(vec![
            ("sub", serde_json::Value::from("550e8400-e29b-41d4-a716-446655440000")),
            ("exp", serde_json::Value::from(NOW + 60)),
        ]),
        &jsonwebtoken::EncodingKey::from_secret(SECRET.as_bytes()),
    )
    .expect("encode");
    assert_eq!(verify_jwt_at(&token, SECRET, NOW), Err(TokenError::Malformed));
}

#[test]
fn no_token_is_issued_where_the_expiry_cannot_be_written() {
    assert_eq!(generate_jwt_at(alice(), SECRET, -86401), None);
    assert_eq!(generate_jwt_at(alice(), SECRET, i64::MIN), None);
    assert!(generate_jwt_at(alice(), SECRET, -86400).is_some());
    assert!(generate_jwt_at(alice(), SECRET, i64::MAX).is_some());
}

#[test]
fn claims_are_judged_shape_first() {
    assert_eq!(check_claims(Decoded::Malformed, NOW), Err(TokenError::Malformed));
    assert_eq!(check_claims(Decoded::BadSignature, NOW), Err(TokenError::BadSignature));
    let payload = |sub: Option<&str>, exp: Option<u64>| Decoded::Payload {
        sub: sub.map(|s| s.to_string()),
        exp,
    };
    assert_eq!(check_claims(payload(None, None), NOW), Err(TokenError::Malformed));
    assert_eq!(check_claims(payload(Some("x"), None), NOW), Err(TokenError::Malformed));
    assert_eq!(check_claims(payload(None, Some(5)), NOW), Err(TokenError::Malformed));
    assert_eq!(check_claims(payload(Some("x"), Some(5)), NOW), Err(TokenError::Expired));
    assert_eq!(
        check_claims(payload(Some("x"), Some(NOW as u64)), NOW),
        Ok(Claims { sub: "x".to_string(), exp: NOW as usize })
    );
    assert_eq!(
        check_claims(payload(Some("x"), Some(NOW as u64 - 1)), NOW),
        Err(TokenError::Expired)
    );
    assert_eq!(
        check_claims(payload(Some("x"), Some(0)), -1),
        Ok(Claims { sub: "x".to_string(), exp: 0 })
    );
}

#[test]
fn subject_is_read_as_an_identifier() {
    let claims = |sub: &str| Claims { sub: sub.to_string(), exp: 0 };
    assert_eq!(parse_subject(&claims("550e8400-e29b-41d4-a716-446655440000")), Ok(alice()));
    assert_eq!(parse_subject(&claims("")), Err(TokenError::InvalidSubject));
    assert_eq!(
        parse_subject(&claims("550e8400-e29b-41d4-a716-44665544000")),
        Err(TokenError::InvalidSubject)
    );
    assert_eq!(
        parse_subject(&claims("550e8400-e29b-41d4-a716-44665544000g")),
        Err(TokenError::InvalidSubject)
    );
}

#[test]
fn secret_followed_by_zero_bytes_signs_alike() {
    let token = generate_jwt_at(alice(), "abc", NOW).expect("token");
    assert_eq!(generate_jwt_at(alice(), "abc\0", NOW), Some(token.clone()));
    assert_eq!(verify_jwt_at(&token, "abc\0\0", NOW), Ok(alice()));
    assert_eq!(verify_jwt_at(&token, "abd", NOW), Err(TokenError::BadSignature));
}

#[test]
fn text_without_two_dots_is_malformed_under_any_secret() {
    for secret in ["", "abc", SECRET] {
        for text in ["", "x", "a.b", "no dots at all", ".", "Bearer"] {
            assert_eq!(verify_jwt_at(text, secret, NOW), Err(TokenError::Malformed));
        }
    }
}

#[test]
fn token_is_issued_wherever_its_expiry_can_be_written() {
    for now in [-86400, -1, 0, 1, NOW, i64::MAX - 86400] {
        let token = generate_jwt_at(alice(), SECRET, now).expect("token");
        assert_eq!(verify_jwt_at(&token, SECRET, now), Ok(alice()));
        if now < i64::MAX - 86400 {
            assert_eq!(verify_jwt_at(&token, SECRET, now + 86401), Err(TokenError::Expired));
        }
    }
    assert!(generate_jwt(alice(), SECRET).is_some());
}
