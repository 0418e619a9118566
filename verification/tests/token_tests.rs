use gane_auth::error::AuthError;
use gane_auth::token::{
    accept_claims, bearer_token, expiry_after, RawClaims, TokenService, GUEST_TTL_HOURS,
    REGISTERED_TTL_HOURS, SECONDS_PER_HOUR,
};
use jsonwebtoken::{decode, encode, Algorithm, DecodingKey, EncodingKey, Header, Validation};
use serde_json::{Number, Value};

const SECRET: &[u8] = b"a secret for the tests";

fn service() -> TokenService {
    TokenService::new(SECRET.to_vec())
}

fn raw(sub: Option<&str>, email: Option<&str>, email_is_null: Option<bool>, exp: Option<u64>, is_guest: Option<bool>) -> RawClaims {
    RawClaims {
        sub: sub.map(String::from),
        email: email.map(String::from),
        email_is_null,
        exp,
        is_guest,
    }
}

fn signed(body: serde_json::Map<String, Value>, header: &Header, secret: &[u8]) -> String {
    encode(header, &body, &EncodingKey::from_secret(secret)).unwrap()
}

fn body(sub: Value, email: Option<Value>, exp: Value, is_guest: Value) -> serde_json::Map<String, Value> {
    let mut m = serde_json::Map::new();
    m.insert("sub".to_string(), sub);
    if let Some(e) = email {
        m.insert("email".to_string(), e);
    }
    m.insert("exp".to_string(), exp);
    m.insert("is_guest".to_string(), is_guest);
    m
}

#[test]
fn ttl_policy_is_a_week_and_a_day() {
    assert_eq!(REGISTERED_TTL_HOURS, 168);
    assert_eq!(GUEST_TTL_HOURS, 24);
    assert_eq!(REGISTERED_TTL_HOURS, 7 * GUEST_TTL_HOURS);
    assert_eq!(SECONDS_PER_HOUR, 3600);
}

#[test]
fn expiry_is_now_plus_hours_in_seconds() {
    assert_eq!(expiry_after(0, 168), Some(604_800));
    assert_eq!(expiry_after(1_700_000_000, 24), Some(1_700_086_400));
    assert_eq!(expiry_after(100, 0), Some(100));
    assert_eq!(expiry_after(7200, -1), Some(3600));
    assert_eq!(expiry_after(3600, -1), Some(0));
}

#[test]
fn expiry_before_the_epoch_cannot_be_written() {
    assert_eq!(expiry_after(-1, 0), None);
    assert_eq!(expiry_after(3599, -1), None);
    assert_eq!(expiry_after(i64::MIN, i64::MIN), None);
}

#[test]
fn expiry_past_the_largest_number_cannot_be_written() {
    assert_eq!(expiry_after(i64::MAX, i64::MAX), None);
    assert_eq!(expiry_after(i64::MAX, 168), Some(i64::MAX as u64 + 604_800));
}

#[test]
fn bearer_token_is_what_follows_the_prefix() {
    assert_eq!(bearer_token(Some("Bearer abc.def.ghi")), Some("abc.def.ghi"));
    assert_eq!(bearer_token(Some("Bearer ")), Some(""));
    assert_eq!(bearer_token(Some("Bearer  x")), Some(" x"));
    assert_eq!(bearer_token(Some("Bearer \u{e9}t\u{e9}")), Some("\u{e9}t\u{e9}"));
}

#[test]
fn other_headers_carry_no_bearer_token() {
    assert_eq!(bearer_token(None), None);
    assert_eq!(bearer_token(Some("")), None);
    assert_eq!(bearer_token(Some("Bearer")), None);
    assert_eq!(bearer_token(Some("bearer abc")), None);
    assert_eq!(bearer_token(Some("Basic abc")), None);
    assert_eq!(bearer_token(Some(" Bearer abc")), None);
    assert_eq!(bearer_token(Some("abc")), None);
    assert_eq!(bearer_token(Some("\u{e9}earer abc")), None);
}

#[test]
fn accept_claims_hands_back_what_was_found() {
    let claims = accept_claims(Some(raw(Some("id-1"), Some("a@b.com"), Some(false), Some(500), Some(false))), 100).unwrap();
    assert_eq!(claims.sub, "id-1");
    assert_eq!(claims.email.as_deref(), Some("a@b.com"));
    assert_eq!(claims.exp, 500);
    assert!(!claims.is_guest);
}

#[test]
fn accept_claims_takes_missing_and_null_email_for_none() {
    let absent = accept_claims(Some(raw(Some("g"), None, None, Some(500), Some(true))), 100).unwrap();
    assert_eq!(absent.email, None);
    assert!(absent.is_guest);
    let null = accept_claims(Some(raw(Some("g"), None, Some(true), Some(500), Some(true))), 100).unwrap();
    assert_eq!(null.email, None);
}

#[test]
fn accept_claims_refuses_a_wrong_shape() {
    let cases = vec![
        raw(None, Some("a@b.com"), Some(false), Some(500), Some(false)),
        raw(Some("id"), Some("a@b.com"), Some(false), None, Some(false)),
        raw(Some("id"), Some("a@b.com"), Some(false), Some(500), None),
        raw(Some("id"), None, Some(false), Some(500), Some(false)),
    ];
    for case in cases {
        assert_eq!(accept_claims(Some(case), 100).err(), Some(AuthError::InvalidToken));
    }
    assert_eq!(accept_claims(None, 100).err(), Some(AuthError::InvalidToken));
}

#[test]
fn accept_claims_holds_through_the_last_second() {
    let at = |now: i64| accept_claims(Some(raw(Some("id"), None, None, Some(500), Some(true))), now);
    assert!(at(499).is_ok());
    assert!(at(500).is_ok());
    assert_eq!(at(501).err(), Some(AuthError::InvalidToken));
    assert!(at(0).is_ok());
    assert!(at(-5).is_ok());
    assert_eq!(at(i64::MAX).err(), Some(AuthError::InvalidToken));
}

#[test]
fn token_with_largest_expiry_never_expires() {
    let r = accept_claims(Some(raw(Some("id"), None, None, Some(u64::MAX), Some(true))), i64::MAX);
    assert_eq!(r.unwrap().exp, u64::MAX);
}

#[test]
fn issued_token_validates_until_its_expiry_and_not_after() {
    let tokens = service();
    let issued_at = 1_700_000_000;
    let token = tokens.issue_at("id-1", Some("a@b.com"), false, 1, issued_at).unwrap();
    let expiry = issued_at + 3600;
    assert!(tokens.validate_at(&token, issued_at).is_ok());
    assert!(tokens.validate_at(&token, expiry - 1).is_ok());
    assert!(tokens.validate_at(&token, expiry).is_ok());
    assert_eq!(tokens.validate_at(&token, expiry + 1).err(), Some(AuthError::InvalidToken));
    assert_eq!(tokens.validate_at(&token, expiry + 60).err(), Some(AuthError::InvalidToken));
    assert_eq!(tokens.validate_at(&token, expiry + 61).err(), Some(AuthError::InvalidToken));
}

#[test]
fn issued_token_reads_back_as_its_claims() {
    let tokens = service();
    let token = tokens.issue_at("id-1", Some("a@b.com"), false, 168, 1000).unwrap();
    let claims = tokens.validate_at(&token, 1000).unwrap();
    assert_eq!(claims.sub, "id-1");
    assert_eq!(claims.email.as_deref(), Some("a@b.com"));
    assert_eq!(claims.exp, 605_800);
    assert!(!claims.is_guest);
}

#[test]
fn guest_token_reads_back_without_email() {
    let tokens = service();
    let token = tokens.issue_at("guest-1", None, true, 24, 1000).unwrap();
    let claims = tokens.validate_at(&token, 1000).unwrap();
    assert_eq!(claims.sub, "guest-1");
    assert_eq!(claims.email, None);
    assert_eq!(claims.exp, 87_400);
    assert!(claims.is_guest);
}

#[test]
fn claims_with_unusual_text_read_back_unchanged() {
    let tokens = service();
    let subject = "id \"quoted\" \\ \n \u{1F600}";
    let email = "\u{e9}@\u{fc}.example \t";
    let token = tokens.issue_at(subject, Some(email), false, 1, 0).unwrap();
    let claims = tokens.validate_at(&token, 0).unwrap();
    assert_eq!(claims.sub, subject);
    assert_eq!(claims.email.as_deref(), Some(email));
}

#[test]
fn issue_fails_where_the_expiry_cannot_be_written() {
    let tokens = service();
    assert_eq!(tokens.issue_at("id", None, true, 24, -100_000).err(), Some(AuthError::TokenCreationFailed));
    assert_eq!(tokens.issue_at("id", None, true, i64::MAX, i64::MAX).err(), Some(AuthError::TokenCreationFailed));
}

#[test]
fn issued_token_is_a_three_part_hs256_token() {
    let tokens = service();
    let token = tokens.issue_at("id-1", Some("a@b.com"), false, 1, 1000).unwrap();
    assert_eq!(token.split('.').count(), 3);
    assert!(token.split('.').all(|part| !part.is_empty()));
    let mut rules = Validation::new(Algorithm::HS256);
    rules.validate_exp = false;
    let read = decode::<Value>(&token, &DecodingKey::from_secret(SECRET), &rules).unwrap();
    assert_eq!(read.header.alg, Algorithm::HS256);
    let members = read.claims.as_object().unwrap();
    assert_eq!(members.len(), 4);
    assert_eq!(members.get("sub"), Some(&Value::String("id-1".to_string())));
    assert_eq!(members.get("email"), Some(&Value::String("a@b.com".to_string())));
    assert_eq!(members.get("exp"), Some(&Value::Number(Number::from(4600u64))));
    assert_eq!(members.get("is_guest"), Some(&Value::Bool(false)));
}

#[test]
fn guest_token_writes_email_as_null() {
    let tokens = service();
    let token = tokens.issue_at("g", None, true, 1, 1000).unwrap();
    let mut rules = Validation::new(Algorithm::HS256);
    rules.validate_exp = false;
    let read = decode::<Value>(&token, &DecodingKey::from_secret(SECRET), &rules).unwrap();
    assert_eq!(read.claims.get("email"), Some(&Value::Null));
    assert_eq!(read.claims.get("is_guest"), Some(&Value::Bool(true)));
}

#[test]
fn same_claims_and_secret_give_the_same_token() {
    let tokens = service();
    let one = tokens.issue_at("id-1", Some("a@b.com"), false, 1, 1000).unwrap();
    let two = tokens.issue_at("id-1", Some("a@b.com"), false, 1, 1000).unwrap();
    let other = tokens.issue_at("id-2", Some("a@b.com"), false, 1, 1000).unwrap();
    assert_eq!(one, two);
    assert_ne!(one, other);
}

#[test]
fn token_of_another_secret_is_refused() {
    let other = TokenService::new(b"another secret".to_vec());
    let token = other.issue_at("id-1", None, true, 1, 1000).unwrap();
    assert!(other.validate_at(&token, 1000).is_ok());
    assert_eq!(service().validate_at(&token, 1000).err(), Some(AuthError::InvalidToken));
}

#[test]
fn tampered_token_is_refused() {
    let tokens = service();
    let token = tokens.issue_at("id-1", None, true, 1, 1000).unwrap();
    let parts: Vec<&str> = token.split('.').collect();
    let forged_body = body(Value::from("id-2"), Some(Value::Null), Value::from(4600u64), Value::from(true));
    let forged = signed(forged_body, &Header::default(), b"not the secret");
    let forged_parts: Vec<&str> = forged.split('.').collect();
    let spliced = format!("{}.{}.{}", parts[0], forged_parts[1], parts[2]);
    assert_eq!(tokens.validate_at(&spliced, 1000).err(), Some(AuthError::InvalidToken));
    let cut = &token[..token.len() - 1];
    assert_eq!(tokens.validate_at(cut, 1000).err(), Some(AuthError::InvalidToken));
}

#[test]
fn malformed_token_is_refused() {
    let tokens = service();
    for text in ["", "abc", "a.b", "a.b.c", "a.b.c.d", "..", "Bearer x"] {
        assert_eq!(tokens.validate_at(text, 0).err(), Some(AuthError::InvalidToken));
    }
}

#[test]
fn token_signed_elsewhere_with_the_secret_is_accepted() {
    let token = signed(
        body(Value::from("id-9"), Some(Value::from("z@z.com")), Value::from(2000u64), Value::from(false)),
        &Header::default(),
        SECRET,
    );
    let claims = service().validate_at(&token, 2000).unwrap();
    assert_eq!(claims.sub, "id-9");
    assert_eq!(claims.email.as_deref(), Some("z@z.com"));
    assert_eq!(claims.exp, 2000);
    assert!(!claims.is_guest);
    assert_eq!(service().validate_at(&token, 2001).err(), Some(AuthError::InvalidToken));
}

#[test]
fn token_without_email_member_is_accepted() {
    let token = signed(
        body(Value::from("g"), None, Value::from(2000u64), Value::from(true)),
        &Header::default(),
        SECRET,
    );
    let claims = service().validate_at(&token, 0).unwrap();
    assert_eq!(claims.email, None);
    assert!(claims.is_guest);
}

#[test]
fn token_with_extra_members_is_accepted() {
    let mut members = body(Value::from("g"), Some(Value::Null), Value::from(2000u64), Value::from(true));
    members.insert("role".to_string(), Value::from("admin"));
    let token = signed(members, &Header::default(), SECRET);
    assert_eq!(service().validate_at(&token, 0).unwrap().sub, "g");
}

#[test]
fn token_with_a_wrong_payload_is_refused() {
    let cases = vec![
        body(Value::from(7u64), Some(Value::Null), Value::from(2000u64), Value::from(true)),
        body(Value::from("g"), Some(Value::from(7u64)), Value::from(2000u64), Value::from(true)),
        body(Value::from("g"), Some(Value::Null), Value::from("2000"), Value::from(true)),
        body(Value::from("g"), Some(Value::Null), Value::from(-5i64), Value::from(true)),
        body(Value::from("g"), Some(Value::Null), Value::from(2000u64), Value::from("yes")),
        body(Value::Null, Some(Value::Null), Value::from(2000u64), Value::from(true)),
    ];
    for case in cases {
        let token = signed(case, &Header::default(), SECRET);
        assert_eq!(service().validate_at(&token, 0).err(), Some(AuthError::InvalidToken));
    }
    let mut no_exp = serde_json::Map::new();
    no_exp.insert("sub".to_string(), Value::from("g"));
    no_exp.insert("is_guest".to_string(), Value::from(true));
    let token = signed(no_exp, &Header::default(), SECRET);
    assert_eq!(service().validate_at(&token, 0).err(), Some(AuthError::InvalidToken));
}

#[test]
fn token_of_another_algorithm_is_refused() {
    let token = signed(
        body(Value::from("g"), Some(Value::Null), Value::from(2000u64), Value::from(true)),
        &Header::new(Algorithm::HS384),
        SECRET,
    );
    assert_eq!(service().validate_at(&token, 0).err(), Some(AuthError::InvalidToken));
}

#[test]
fn empty_secret_still_signs_and_validates() {
    let tokens = TokenService::new(Vec::new());
    let token = tokens.issue_at("id", None, true, 1, 0).unwrap();
    assert!(tokens.validate_at(&token, 0).is_ok());
    assert_eq!(service().validate_at(&token, 0).err(), Some(AuthError::InvalidToken));
}
