//! Bearer tokens: signed claims with an expiry. A token stands for itself;
//! the service keeps no record of the tokens it has issued.

use jsonwebtoken::{decode, encode, DecodingKey, EncodingKey, Header, Validation};
use serde_json::Value;
use vstd::prelude::*;
use vstd::string::StrSliceExecFns;

use crate::error::AuthError;
use crate::user::slice_text_of;
use crate::user::text_of;

verus! {

/// How long the token of a registered user lives, in hours.
pub const REGISTERED_TTL_HOURS: i64 = 168;

/// How long the token of a guest lives, in hours.
pub const GUEST_TTL_HOURS: i64 = 24;

/// The seconds in an hour.
pub const SECONDS_PER_HOUR: i64 = 3600;

/// What a token says, as plain values.
pub struct ClaimsView {
    pub sub: Seq<char>,
    pub email: Option<Seq<char>>,
    pub exp: u64,
    pub is_guest: bool,
}

impl ClaimsView {
    /// A guest has no e-mail address, and everyone else has one.
    pub open spec fn coherent(self) -> bool {
        self.is_guest == (self.email is None)
    }
}

/// What a token says: who it stands for and until when.
#[derive(Debug)]
pub struct Claims {
    /// The identifier of the user.
    pub sub: String,
    /// The e-mail address of a registered user; a guest has none.
    pub email: Option<String>,
    /// The last second, counted from the Unix epoch, at which the token holds.
    pub exp: u64,
    pub is_guest: bool,
}

impl View for Claims {
    type V = ClaimsView;

    open spec fn view(&self) -> ClaimsView {
        ClaimsView {
            sub: self.sub@,
            email: text_of(self.email),
            exp: self.exp,
            is_guest: self.is_guest,
        }
    }
}

/// The members of a verified token's payload as they were found, as plain
/// values. See `RawClaims`.
pub struct RawClaimsView {
    pub sub: Option<Seq<char>>,
    pub email: Option<Seq<char>>,
    pub email_is_null: Option<bool>,
    pub exp: Option<u64>,
    pub is_guest: Option<bool>,
}

/// The members of a verified token's payload as they were found, before
/// anything is asked of them.
#[derive(Debug)]
pub struct RawClaims {
    /// The member `sub`, where it is a string.
    pub sub: Option<String>,
    /// The member `email`, where it is a string.
    pub email: Option<String>,
    /// Whether the member `email` is `null`; `None` where there is no such
    /// member.
    pub email_is_null: Option<bool>,
    /// The member `exp`, where it is an integer from 0 to 2^64 - 1.
    pub exp: Option<u64>,
    /// The member `is_guest`, where it is a boolean.
    pub is_guest: Option<bool>,
}

impl View for RawClaims {
    type V = RawClaimsView;

    open spec fn view(&self) -> RawClaimsView {
        RawClaimsView {
            sub: text_of(self.sub),
            email: text_of(self.email),
            email_is_null: self.email_is_null,
            exp: self.exp,
            is_guest: self.is_guest,
        }
    }
}

/// The payload members that a token with these claims carries.
pub open spec fn raw_of(claims: ClaimsView) -> RawClaimsView {
    RawClaimsView {
        sub: Some(claims.sub),
        email: claims.email,
        email_is_null: Some(claims.email is None),
        exp: Some(claims.exp),
        is_guest: Some(claims.is_guest),
    }
}

/// The claims that payload members amount to. `sub`, `exp` and `is_guest`
/// must be there with their types; `email` may be missing or `null`, and
/// must else be a string.
pub open spec fn shaped(raw: RawClaimsView) -> Option<ClaimsView> {
    if raw.sub is Some && raw.exp is Some && raw.is_guest is Some && (raw.email_is_null == Some(
        false,
    ) ==> raw.email is Some) {
        Some(
            ClaimsView {
                sub: raw.sub->0,
                email: raw.email,
                exp: raw.exp->0,
                is_guest: raw.is_guest->0,
            },
        )
    } else {
        None
    }
}

/// A token has expired once the clock is past its last second.
pub open spec fn expired(exp: u64, now: i64) -> bool {
    exp < now
}

/// What validation comes to at second `now`, given what the signature
/// check and the decoding of the token gave. Every failure is the same
/// `InvalidToken`.
pub open spec fn validation_outcome(payload: Option<RawClaimsView>, now: i64) -> Result<
    ClaimsView,
    AuthError,
> {
    match payload {
        None => Err(AuthError::InvalidToken),
        Some(raw) => match shaped(raw) {
            None => Err(AuthError::InvalidToken),
            Some(claims) => if expired(claims.exp, now) {
                Err(AuthError::InvalidToken)
            } else {
                Ok(claims)
            },
        },
    }
}

/// The second at which a token issued at `now` for `ttl_hours` hours ends,
/// where that second can be written into a token.
pub open spec fn expiry_of(now: i64, ttl_hours: i64) -> Option<u64> {
    let at = now + ttl_hours * SECONDS_PER_HOUR;
    if 0 <= at <= u64::MAX {
        Some(at as u64)
    } else {
        None
    }
}

/// The text of an optional payload.
pub open spec fn payload_of(payload: Option<RawClaims>) -> Option<RawClaimsView> {
    match payload {
        Some(raw) => Some(raw@),
        None => None,
    }
}

/// The plain values of a validation result.
pub open spec fn claims_outcome(r: Result<Claims, AuthError>) -> Result<ClaimsView, AuthError> {
    match r {
        Ok(claims) => Ok(claims@),
        Err(e) => Err(e),
    }
}

/// The prefix of an `Authorization` header that carries a bearer token.
pub open spec fn bearer_prefix() -> Seq<char> {
    seq!['B', 'e', 'a', 'r', 'e', 'r', ' ']
}

/// The token in an `Authorization` header: what follows `Bearer `, where
/// the header is there and starts so.
pub open spec fn bearer_of(header: Option<Seq<char>>) -> Option<Seq<char>> {
    match header {
        Some(h) => if h.len() >= 7 && h.subrange(0, 7) == bearer_prefix() {
            Some(h.subrange(7, h.len() as int))
        } else {
            None
        },
        None => None,
    }
}

/// Computes the expiry of a token issued at `now` for `ttl_hours` hours.
pub fn expiry_after(now: i64, ttl_hours: i64) -> (r: Option<u64>)
    ensures
        r == expiry_of(now, ttl_hours),
{
    let hours: i128 = ttl_hours as i128;
    let span: i128 = hours * 3600;
    let at: i128 = now as i128 + span;
    if at < 0 || at > u64::MAX as i128 {
        None
    } else {
        Some(at as u64)
    }
}

/// Takes the token out of an `Authorization` header.
pub fn bearer_token<'a>(authorization: Option<&'a str>) -> (token: Option<&'a str>)
    ensures
        slice_text_of(token) == bearer_of(slice_text_of(authorization)),
{
    match authorization {
        None => None,
        Some(header) => {
            let n: usize = header.unicode_len();
            if n >= 7 && header.get_char(0) == 'B' && header.get_char(1) == 'e' && header.get_char(
                2,
            ) == 'a' && header.get_char(3) == 'r' && header.get_char(4) == 'e' && header.get_char(5)
                == 'r' && header.get_char(6) == ' ' {
                assert(header@.subrange(0, 7) =~= bearer_prefix());
                Some(header.substring_char(7, n))
            } else {
                assert(n >= 7 ==> header@.subrange(0, 7) != bearer_prefix()) by {
                    if n >= 7 && header@.subrange(0, 7) == bearer_prefix() {
                        assert(forall|i: int|
                            0 <= i < 7 ==> header@.subrange(0, 7)[i] == bearer_prefix()[i]);
                        assert(header@.subrange(0, 7)[0] == header@[0]);
                        assert(header@.subrange(0, 7)[1] == header@[1]);
                        assert(header@.subrange(0, 7)[2] == header@[2]);
                        assert(header@.subrange(0, 7)[3] == header@[3]);
                        assert(header@.subrange(0, 7)[4] == header@[4]);
                        assert(header@.subrange(0, 7)[5] == header@[5]);
                        assert(header@.subrange(0, 7)[6] == header@[6]);
                    }
                }
                None
            }
        },
    }
}

/// Turns what the signature check and the decoding of a token gave into
/// the claims, or into the one failure that validation knows.
pub fn accept_claims(payload: Option<RawClaims>, now: i64) -> (r: Result<Claims, AuthError>)
    ensures
        claims_outcome(r) == validation_outcome(payload_of(payload), now),
{
    match payload {
        None => Err(AuthError::InvalidToken),
        Some(raw) => {
            let email_fits: bool = match raw.email_is_null {
                Some(false) => raw.email.is_some(),
                _ => true,
            };
            match (raw.sub, raw.exp, raw.is_guest) {
                (Some(sub), Some(exp), Some(is_guest)) => {
                    if !email_fits {
                        Err(AuthError::InvalidToken)
                    } else if now > 0 && exp < now as u64 {
                        Err(AuthError::InvalidToken)
                    } else {
                        Ok(Claims { sub, email: raw.email, exp, is_guest })
                    }
                },
                _ => Err(AuthError::InvalidToken),
            }
        },
    }
}

/// The error type of the `jsonwebtoken` crate.
#[verifier::external_type_specification]
#[verifier::external_body]
pub struct ExTokenError(jsonwebtoken::errors::Error);

/// The token that `jsonwebtoken::encode` makes of these claims under this
/// secret, with the crate's default header (HS256). It depends on the
/// claims and the secret alone.
pub uninterp spec fn signed_token(
    sub: Seq<char>,
    email: Option<Seq<char>>,
    exp: u64,
    is_guest: bool,
    secret: Seq<u8>,
) -> Seq<char>;

/// What `jsonwebtoken::decode` finds in a token under this secret, with the
/// check of `exp` against the clock switched off: the members of the
/// payload where the token has three parts, an HS256 header, a signature
/// that verifies and a payload with a numeric `exp`; `None` where the crate
/// reports an error. It depends on the token and the secret alone.
pub uninterp spec fn token_payload(token: Seq<char>, secret: Seq<u8>) -> Option<RawClaimsView>;

/// Calls `jsonwebtoken::encode` with the default header, the claims written
/// as a JSON object with the members `sub`, `email` (`null` where absent),
/// `exp` and `is_guest`, and `secret` as an HMAC key. The contract claims
/// three things of it. The call succeeds: its only error paths are a key of
/// another family than the header's algorithm and a value that cannot be
/// serialised, and neither can occur here. Its result is the token named
/// above. And `jsonwebtoken::decode` under the same secret reads the same
/// members back out of it, which is what the crate is for.
#[verifier::external_body]
fn jwt_encode(claims: &Claims, secret: &[u8]) -> (r: Result<String, jsonwebtoken::errors::Error>)
    ensures
        r is Ok,
        r matches Ok(token) ==> token@ == signed_token(
            claims@.sub,
            claims@.email,
            claims@.exp,
            claims@.is_guest,
            secret@,
        ) && token_payload(token@, secret@) == Some(raw_of(claims@)),
{
    let mut body = serde_json::Map::new();
    body.insert(String::from("sub"), Value::from(claims.sub.as_str()));
    body.insert(String::from("email"), Value::from(claims.email.clone()));
    body.insert(String::from("exp"), Value::from(claims.exp));
    body.insert(String::from("is_guest"), Value::from(claims.is_guest));
    encode(&Header::default(), &body, &EncodingKey::from_secret(secret))
}

/// Calls `jsonwebtoken::decode` with the default validation (HS256, `exp`
/// required) but for the comparison of `exp` with the clock, which is
/// switched off here and made by `accept_claims` against a time that the
/// caller gives. The payload is read as a JSON value and its four members
/// are handed on as they are found. The contract claims no more than that
/// the outcome is the one named above.
#[verifier::external_body]
fn jwt_decode(token: &str, secret: &[u8]) -> (r: Result<RawClaims, jsonwebtoken::errors::Error>)
    ensures
        token_payload(token@, secret@) == match r {
            Ok(raw) => Some(raw@),
            Err(_) => None,
        },
{
    let mut rules = Validation::default();
    rules.validate_exp = false;
    let body = decode::<Value>(token, &DecodingKey::from_secret(secret), &rules)?.claims;
    Ok(RawClaims {
        sub: body.get("sub").and_then(Value::as_str).map(String::from),
        email: body.get("email").and_then(Value::as_str).map(String::from),
        email_is_null: body.get("email").map(Value::is_null),
        exp: body.get("exp").and_then(Value::as_u64),
        is_guest: body.get("is_guest").and_then(Value::as_bool),
    })
}

/// Payload members written from claims amount to the same claims again, so
/// a token that carries them is accepted up to its last second and refused
/// from the next one on.
pub proof fn lemma_lives_until_expiry(claims: ClaimsView, now: i64)
    ensures
        shaped(raw_of(claims)) == Some(claims),
        validation_outcome(Some(raw_of(claims)), now) == if now <= claims.exp {
            Ok::<ClaimsView, AuthError>(claims)
        } else {
            Err::<ClaimsView, AuthError>(AuthError::InvalidToken)
        },
{
}

/// Issues and validates tokens under one secret, which is set once and
/// never handed out.
pub struct TokenService {
    secret: Vec<u8>,
}

impl TokenService {
    /// The secret that signs the tokens.
    pub closed spec fn secret(&self) -> Seq<u8> {
        self.secret@
    }

    /// `token` is the token this service signs for `claims`, and this
    /// service reads `claims` back out of it.
    pub open spec fn issues(&self, token: Seq<char>, claims: ClaimsView) -> bool {
        &&& token == signed_token(
            claims.sub,
            claims.email,
            claims.exp,
            claims.is_guest,
            self.secret(),
        )
        &&& token_payload(token, self.secret()) == Some(raw_of(claims))
    }

    /// What validating `token` at second `now` comes to.
    pub open spec fn validates(&self, token: Seq<char>, now: i64) -> Result<ClaimsView, AuthError> {
        validation_outcome(token_payload(token, self.secret()), now)
    }

    /// A service that signs with `secret`.
    pub fn new(secret: Vec<u8>) -> (service: TokenService)
        ensures
            service.secret() == secret@,
    {
        TokenService { secret }
    }

    /// Issues a token for `subject` that holds for `ttl_hours` hours from
    /// second `now`. It fails only where the expiry cannot be written into
    /// a token. The token validates, to the claims given here, at every
    /// second up to the expiry and at none after it.
    pub fn issue_at(
        &self,
        subject: &str,
        email: Option<&str>,
        guest: bool,
        ttl_hours: i64,
        now: i64,
    ) -> (r: Result<String, AuthError>)
        ensures
            match expiry_of(now, ttl_hours) {
                None => r == Err::<String, AuthError>(AuthError::TokenCreationFailed),
                Some(exp) => {
                    let claims = ClaimsView {
                        sub: subject@,
                        email: slice_text_of(email),
                        exp,
                        is_guest: guest,
                    };
                    &&& r matches Ok(token)
                    &&& self.issues(token@, claims)
                    &&& forall|at: i64|
                        #[trigger] self.validates(token@, at) == if at <= exp {
                            Ok::<ClaimsView, AuthError>(claims)
                        } else {
                            Err::<ClaimsView, AuthError>(AuthError::InvalidToken)
                        }
                },
            },
    {
        let exp: u64 = match expiry_after(now, ttl_hours) {
            Some(exp) => exp,
            None => {
                return Err(AuthError::TokenCreationFailed);
            },
        };
        let claims = Claims {
            sub: subject.to_owned(),
            email: match email {
                Some(address) => Some(address.to_owned()),
                None => None,
            },
            exp,
            is_guest: guest,
        };
        match jwt_encode(&claims, self.secret.as_slice()) {
            Ok(token) => {
                proof {
                    assert forall|at: i64|
                        #[trigger] self.validates(token@, at) == if at <= exp {
                            Ok::<ClaimsView, AuthError>(claims@)
                        } else {
                            Err::<ClaimsView, AuthError>(AuthError::InvalidToken)
                        } by {
                        lemma_lives_until_expiry(claims@, at);
                    }
                }
                Ok(token)
            },
            Err(_) => Err(AuthError::TokenCreationFailed),
        }
    }

    /// Validates `token` at second `now`: the signature must verify under
    /// the service's secret, the payload must have the shape of claims, and
    /// `now` must not be past the expiry. The claims come back as the token
    /// holds them; nothing else is looked up.
    pub fn validate_at(&self, token: &str, now: i64) -> (r: Result<Claims, AuthError>)
        ensures
            claims_outcome(r) == self.validates(token@, now),
    {
        match jwt_decode(token, self.secret.as_slice()) {
            Ok(raw) => accept_claims(Some(raw), now),
            Err(_) => accept_claims(None, now),
        }
    }
}

/// A guest's session ends seven times sooner than that of a registered
/// user, whenever the two are opened.
pub proof fn lemma_guest_sessions_end_sooner(now: i64)
    requires
        0 <= now,
    ensures
        REGISTERED_TTL_HOURS == 7 * GUEST_TTL_HOURS,
        expiry_of(now, GUEST_TTL_HOURS) is Some,
        expiry_of(now, REGISTERED_TTL_HOURS) is Some,
        expiry_of(now, REGISTERED_TTL_HOURS)->0 - now == 7 * (expiry_of(now, GUEST_TTL_HOURS)->0
            - now),
{
}

/// A token that the service issued for `claims` is accepted, as those
/// claims, at every second up to its expiry, and is refused as
/// `InvalidToken` at every later one. For a token issued at second
/// `issued_at` for `ttl_hours` hours the last good second is
/// `issued_at + 3600 * ttl_hours`.
pub proof fn lemma_token_lifetime(
    tokens: TokenService,
    token: Seq<char>,
    claims: ClaimsView,
    issued_at: i64,
    ttl_hours: i64,
    at: i64,
)
    requires
        tokens.issues(token, claims),
        expiry_of(issued_at, ttl_hours) == Some(claims.exp),
    ensures
        at <= issued_at + ttl_hours * SECONDS_PER_HOUR ==> tokens.validates(token, at) == Ok::<
            ClaimsView,
            AuthError,
        >(claims),
        at > issued_at + ttl_hours * SECONDS_PER_HOUR ==> tokens.validates(token, at) == Err::<
            ClaimsView,
            AuthError,
        >(AuthError::InvalidToken),
{
    lemma_lives_until_expiry(claims, at);
}

/// While it holds, a token that the service issued reads back as the
/// claims it was issued for: the same subject, the same e-mail address or
/// none, the same guest flag.
pub proof fn lemma_token_reads_back(
    tokens: TokenService,
    token: Seq<char>,
    claims: ClaimsView,
    at: i64,
)
    requires
        tokens.issues(token, claims),
        at <= claims.exp,
    ensures
        tokens.validates(token, at) == Ok::<ClaimsView, AuthError>(claims),
{
    lemma_lives_until_expiry(claims, at);
}

} // verus!
