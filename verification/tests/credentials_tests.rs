use gane_auth::credentials::{
    hash_password, holds_char, validate_registration, verify_password, MIN_PASSWORD_BYTES,
};
use gane_auth::error::AuthError;

#[test]
fn empty_email_is_invalid() {
    assert_eq!(validate_registration("", "secret1"), Err(AuthError::InvalidEmail));
}

#[test]
fn email_without_at_is_invalid() {
    assert_eq!(validate_registration("a.b.com", "secret1"), Err(AuthError::InvalidEmail));
}

#[test]
fn email_is_checked_before_password() {
    assert_eq!(validate_registration("nobody", "x"), Err(AuthError::InvalidEmail));
}

#[test]
fn a_lone_at_passes_the_email_check() {
    assert_eq!(validate_registration("@", "secret1"), Ok(()));
}

#[test]
fn password_of_five_bytes_is_too_short() {
    assert_eq!(validate_registration("a@b.com", "12345"), Err(AuthError::WeakPassword));
    assert_eq!(validate_registration("a@b.com", ""), Err(AuthError::WeakPassword));
}

#[test]
fn password_of_six_bytes_is_accepted() {
    assert_eq!(MIN_PASSWORD_BYTES, 6);
    assert_eq!(validate_registration("a@b.com", "123456"), Ok(()));
    assert_eq!(validate_registration("a@b.com", "secret1"), Ok(()));
}

#[test]
fn password_length_is_counted_in_bytes() {
    // three letters of two bytes each
    assert_eq!(validate_registration("a@b.com", "\u{e9}\u{e9}\u{e9}"), Ok(()));
    // five bytes in three letters
    assert_eq!(validate_registration("a@b.com", "\u{e9}\u{e9}a"), Err(AuthError::WeakPassword));
}

#[test]
fn holds_char_finds_a_character_anywhere() {
    assert!(holds_char("a@b", '@'));
    assert!(holds_char("@", '@'));
    assert!(holds_char("ab@", '@'));
    assert!(!holds_char("", '@'));
    assert!(!holds_char("abc", '@'));
    assert!(holds_char("\u{e9}@", '@'));
}

#[test]
fn hashed_password_verifies_and_is_not_the_password() {
    let hash = hash_password("secret1").unwrap();
    assert_ne!(hash, "secret1");
    assert!(hash.starts_with("$2"));
    assert_eq!(hash.len(), 60);
    assert_eq!(verify_password(&hash, "secret1"), Ok(true));
    assert_eq!(verify_password(&hash, "secret2"), Ok(false));
}

#[test]
fn verify_password_accepts_a_known_hash() {
    let hash = "$2b$04$EGdrhbKUv8Oc9vGiXX0HQOxSg445d458Muh7DAHskb6QbtCvdxcie";
    assert_eq!(verify_password(hash, "correctbatteryhorsestapler"), Ok(true));
    assert_eq!(verify_password(hash, "wrong"), Ok(false));
}

#[test]
fn verify_password_gives_the_same_answer_each_time() {
    let hash = "$2b$04$EGdrhbKUv8Oc9vGiXX0HQOxSg445d458Muh7DAHskb6QbtCvdxcie";
    let first = verify_password(hash, "correctbatteryhorsestapler");
    let second = verify_password(hash, "correctbatteryhorsestapler");
    assert_eq!(first, second);
}

#[test]
fn unreadable_hash_is_an_internal_error() {
    assert_eq!(verify_password("not a hash", "secret1"), Err(AuthError::Internal));
    assert_eq!(verify_password("", "secret1"), Err(AuthError::Internal));
    assert_eq!(
        verify_password("$2a$04$tjARW6ZON3PhrAIRW2LG/u9a.", "secret1"),
        Err(AuthError::Internal)
    );
}
