//! What a registration must look like, and the hashing of passwords.

use vstd::prelude::*;
use vstd::utf8::encode_utf8;

use crate::error::AuthError;

verus! {

/// The least number of bytes a password must have.
pub const MIN_PASSWORD_BYTES: usize = 6;

/// An e-mail address is accepted when it is not empty and holds an `@`.
pub open spec fn valid_email(email: Seq<char>) -> bool {
    email.len() > 0 && email.contains('@')
}

/// A password is accepted when its UTF-8 form has at least six bytes.
pub open spec fn valid_password(password: Seq<char>) -> bool {
    encode_utf8(password).len() >= MIN_PASSWORD_BYTES
}

/// What is wrong with the shape of a registration, the e-mail address
/// being looked at first.
pub open spec fn shape_fault(email: Seq<char>, password: Seq<char>) -> Option<AuthError> {
    if !valid_email(email) {
        Some(AuthError::InvalidEmail)
    } else if !valid_password(password) {
        Some(AuthError::WeakPassword)
    } else {
        None
    }
}

proof fn lemma_push_contains(seen: Seq<char>, next: char, wanted: char)
    ensures
        seen.push(next).contains(wanted) <==> seen.contains(wanted) || next == wanted,
{
    let longer = seen.push(next);
    if seen.contains(wanted) {
        let k = choose|k: int| 0 <= k < seen.len() && seen[k] == wanted;
        assert(longer[k] == wanted);
    }
    if next == wanted {
        assert(longer[seen.len() as int] == wanted);
    }
    if longer.contains(wanted) {
        let k = choose|k: int| 0 <= k < longer.len() && longer[k] == wanted;
        if k < seen.len() {
            assert(seen[k] == wanted);
        }
    }
}

/// Whether `text` holds the character `wanted`.
pub fn holds_char(text: &str, wanted: char) -> (held: bool)
    ensures
        held == text@.contains(wanted),
{
    let mut held: bool = false;
    for c in it: text.chars()
        invariant
            it.seq() == text@,
            held == text@.take(it.index() as int).contains(wanted),
    {
        proof {
            let seen = text@.take(it.index() as int);
            assert(text@.take(it.index() + 1) =~= seen.push(c));
            lemma_push_contains(seen, c, wanted);
        }
        held = held || c == wanted;
    }
    assert(text@.take(text@.len() as int) =~= text@);
    held
}

/// Checks the shape of a registration.
pub fn validate_registration(email: &str, password: &str) -> (r: Result<(), AuthError>)
    ensures
        r == match shape_fault(email@, password@) {
            Some(e) => Err::<(), AuthError>(e),
            None => Ok::<(), AuthError>(()),
        },
{
    if email.is_empty() || !holds_char(email, '@') {
        return Err(AuthError::InvalidEmail);
    }
    if password.as_bytes().len() < MIN_PASSWORD_BYTES {
        return Err(AuthError::WeakPassword);
    }
    Ok(())
}

/// The error type of the `bcrypt` crate.
#[verifier::external_type_specification]
#[verifier::external_body]
pub struct ExBcryptError(bcrypt::BcryptError);

/// What `bcrypt::verify` answers for a password and a stored hash:
/// `Some(true)` where they match, `Some(false)` where they do not, `None`
/// where it reports an error, as it does for a hash it cannot read. The
/// answer depends on the two texts alone.
pub uninterp spec fn password_verdict(password: Seq<char>, hash: Seq<char>) -> Option<bool>;

/// Calls `bcrypt::verify` on the UTF-8 bytes of `password`. The contract
/// claims no more than that the call's answer is the verdict named above.
#[verifier::external_body]
fn bcrypt_verify(password: &str, hash: &str) -> (r: Result<bool, bcrypt::BcryptError>)
    ensures
        match r {
            Ok(matches) => password_verdict(password@, hash@) == Some(matches),
            Err(_) => password_verdict(password@, hash@) is None,
        },
{
    bcrypt::verify(password, hash)
}

/// Calls `bcrypt::hash` at the crate's default cost, with a salt that the
/// crate draws at random. Which hash comes back is therefore left open, and
/// so is whether one comes back at all. The contract claims only what the
/// crate documents of every hash it hands out: `bcrypt::verify` accepts the
/// same password against it.
#[verifier::external_body]
fn bcrypt_hash(password: &str) -> (r: Result<String, bcrypt::BcryptError>)
    ensures
        r matches Ok(hash) ==> password_verdict(password@, hash@) == Some(true),
{
    bcrypt::hash(password.as_bytes(), bcrypt::DEFAULT_COST)
}

/// What a password check comes to once the verdict is known. A verdict
/// that is missing is an internal failure: it is taken neither for a match
/// nor for a mismatch.
pub open spec fn check_outcome(verdict: Option<bool>) -> Result<bool, AuthError> {
    match verdict {
        Some(matches) => Ok(matches),
        None => Err(AuthError::Internal),
    }
}

/// Tells whether `candidate` is the password behind `stored_hash`.
pub fn verify_password(stored_hash: &str, candidate: &str) -> (r: Result<bool, AuthError>)
    ensures
        r == check_outcome(password_verdict(candidate@, stored_hash@)),
{
    match bcrypt_verify(candidate, stored_hash) {
        Ok(matches) => Ok(matches),
        Err(_) => Err(AuthError::Internal),
    }
}

/// Hashes `password` with a fresh salt. Where a hash comes back, the same
/// password verifies against it; the only failure is `HashingFailed`.
pub fn hash_password(password: &str) -> (r: Result<String, AuthError>)
    ensures
        match r {
            Ok(hash) => password_verdict(password@, hash@) == Some(true),
            Err(e) => e == AuthError::HashingFailed,
        },
{
    match bcrypt_hash(password) {
        Ok(hash) => Ok(hash),
        Err(_) => Err(AuthError::HashingFailed),
    }
}

} // verus!
