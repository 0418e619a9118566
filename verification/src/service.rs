//! The requests the service answers: register, login, guest, current user,
//! logout and the two status probes. Each request that needs the clock or a
//! fresh identifier has a twin that takes them as arguments and is
//! determined by its arguments.

use vstd::prelude::*;

use crate::credentials::{
    hash_password,
    password_verdict,
    shape_fault,
    validate_registration,
    verify_password,
};
use crate::error::AuthError;
use crate::outside::{fresh_id, now_rfc3339, now_seconds};
use crate::store::{
    consistent,
    count_email,
    find_email,
    has_email,
    lemma_find_email,
    lemma_insert_claims_email,
    with_user,
    CredentialStore,
};
use crate::token::{
    bearer_of,
    bearer_token,
    claims_outcome,
    expiry_of,
    lemma_lives_until_expiry,
    signed_token,
    token_payload,
    validation_outcome,
    Claims,
    ClaimsView,
    TokenService,
    GUEST_TTL_HOURS,
    REGISTERED_TTL_HOURS,
};
use crate::user::{
    outcome_of,
    slice_text_of,
    AuthResponse,
    AuthResponseView,
    StoredUser,
    StoredUserView,
    User,
    UserView,
};

verus! {

/// The answer of the status probe.
#[derive(Debug)]
pub struct Health {
    pub status: &'static str,
    pub message: &'static str,
}

/// The status code of a request that went through.
pub const STATUS_OK: u16 = 200;

/// The claims in the token of a registered user.
pub open spec fn user_claims(user: StoredUserView, exp: u64) -> ClaimsView {
    ClaimsView { sub: user.id, email: Some(user.email), exp, is_guest: false }
}

/// The claims in the token of a guest.
pub open spec fn guest_claims(id: Seq<char>, exp: u64) -> ClaimsView {
    ClaimsView { sub: id, email: None, exp, is_guest: true }
}

/// The guest behind an identifier.
pub open spec fn guest_user(id: Seq<char>, created_at: Seq<char>) -> UserView {
    UserView { id, email: None, is_guest: true, created_at }
}

/// The session of a registered user whose token is issued at second `now`:
/// the token holds for 168 hours. There is none where the expiry cannot be
/// written into a token.
pub open spec fn user_session(user: StoredUserView, secret: Seq<u8>, now: i64) -> Result<
    AuthResponseView,
    AuthError,
> {
    match expiry_of(now, REGISTERED_TTL_HOURS) {
        None => Err(AuthError::TokenCreationFailed),
        Some(exp) => Ok(
            AuthResponseView {
                token: signed_token(user.id, Some(user.email), exp, false, secret),
                user: user.public(),
            },
        ),
    }
}

/// The session of a guest whose token is issued at second `now`: the token
/// holds for 24 hours.
pub open spec fn guest_outcome(
    id: Seq<char>,
    created_at: Seq<char>,
    secret: Seq<u8>,
    now: i64,
) -> Result<AuthResponseView, AuthError> {
    match expiry_of(now, GUEST_TTL_HOURS) {
        None => Err(AuthError::TokenCreationFailed),
        Some(exp) => Ok(
            AuthResponseView {
                token: signed_token(id, None, exp, true, secret),
                user: guest_user(id, created_at),
            },
        ),
    }
}

/// Why a registration is turned down before anything is hashed or stored:
/// for its shape, or because the e-mail address is taken.
pub open spec fn refusal(
    users: Seq<StoredUserView>,
    email: Seq<char>,
    password: Seq<char>,
) -> Option<AuthError> {
    match shape_fault(email, password) {
        Some(e) => Some(e),
        None => if has_email(users, email) {
            Some(AuthError::EmailTaken)
        } else {
            None
        },
    }
}

/// `user` is a record made for the registration of `email` with `password`:
/// it holds the address, and the password verifies against its hash.
pub open spec fn made_for(user: StoredUserView, email: Seq<char>, password: Seq<char>) -> bool {
    user.email == email && password_verdict(password, user.password_hash) == Some(true)
}

/// What enrolling `user` at second `now` comes to: the new records and the
/// answer, or the failure, which leaves the records as they were.
pub open spec fn enrollment(
    users: Seq<StoredUserView>,
    user: StoredUserView,
    secret: Seq<u8>,
    now: i64,
) -> Result<(Seq<StoredUserView>, AuthResponseView), AuthError> {
    if has_email(users, user.email) {
        Err(AuthError::EmailTaken)
    } else {
        match user_session(user, secret, now) {
            Err(e) => Err(e),
            Ok(response) => Ok((with_user(users, user), response)),
        }
    }
}

/// What a login comes to once the record is found and the password check
/// has answered.
pub open spec fn grant_outcome(
    user: StoredUserView,
    secret: Seq<u8>,
    verdict: Result<bool, AuthError>,
    now: i64,
) -> Result<AuthResponseView, AuthError> {
    match verdict {
        Err(e) => Err(e),
        Ok(false) => Err(AuthError::InvalidCredentials),
        Ok(true) => user_session(user, secret, now),
    }
}

/// What a login at second `now` comes to. An unknown address and a wrong
/// password end in the same failure.
pub open spec fn login_outcome(
    users: Seq<StoredUserView>,
    secret: Seq<u8>,
    email: Seq<char>,
    password: Seq<char>,
    now: i64,
) -> Result<AuthResponseView, AuthError> {
    match find_email(users, email) {
        None => Err(AuthError::InvalidCredentials),
        Some(user) => grant_outcome(
            user,
            secret,
            crate::credentials::check_outcome(password_verdict(password, user.password_hash)),
            now,
        ),
    }
}

/// What the claims behind an `Authorization` header are at second `now`.
pub open spec fn header_outcome(header: Option<Seq<char>>, secret: Seq<u8>, now: i64) -> Result<
    ClaimsView,
    AuthError,
> {
    match bearer_of(header) {
        None => Err(AuthError::InvalidToken),
        Some(token) => validation_outcome(token_payload(token, secret), now),
    }
}

/// The user that claims describe. The claims carry no time of creation, so
/// the caller supplies the timestamp shown.
pub open spec fn claimed_user(claims: ClaimsView, created_at: Seq<char>) -> UserView {
    UserView { id: claims.sub, email: claims.email, is_guest: claims.is_guest, created_at }
}

/// What the current-user request comes to at second `now`.
pub open spec fn current_user_outcome(
    header: Option<Seq<char>>,
    secret: Seq<u8>,
    now: i64,
    created_at: Seq<char>,
) -> Result<UserView, AuthError> {
    match header_outcome(header, secret, now) {
        Err(e) => Err(e),
        Ok(claims) => Ok(claimed_user(claims, created_at)),
    }
}

/// The plain values of a current-user answer.
pub open spec fn user_outcome(r: Result<User, AuthError>) -> Result<UserView, AuthError> {
    match r {
        Ok(user) => Ok(user@),
        Err(e) => Err(e),
    }
}

/// The liveness probe answers `OK`.
pub fn health_check() -> (body: &'static str)
    ensures
        body@ == "OK"@,
{
    "OK"
}

/// The status probe.
pub fn api_status() -> (health: Health)
    ensures
        health.status@ == "ok"@,
        health.message@ == "Gane backend is running"@,
{
    Health { status: "ok", message: "Gane backend is running" }
}

/// Logging out changes nothing: a token holds until it expires. The
/// request is acknowledged with status 200.
pub fn logout() -> (status: u16)
    ensures
        status == STATUS_OK,
{
    STATUS_OK
}

/// Tells whether a registration would be turned down before anything is
/// hashed: for its shape first, then because the e-mail address is taken.
/// The store is only read.
pub fn check_registration(store: &CredentialStore, email: &str, password: &str) -> (r: Result<
    (),
    AuthError,
>)
    ensures
        r == match refusal(store@, email@, password@) {
            Some(e) => Err::<(), AuthError>(e),
            None => Ok::<(), AuthError>(()),
        },
        consistent(store@),
{
    proof {
        use_type_invariant(store);
    }
    match validate_registration(email, password) {
        Ok(()) => {},
        Err(e) => {
            return Err(e);
        },
    }
    if store.contains_email(email) {
        return Err(AuthError::EmailTaken);
    }
    Ok(())
}

/// Makes the record for a registration: a fresh identifier, the hash of the
/// password and the time of day. It does not look at the store, and fails
/// only where hashing fails.
pub fn new_user(email: &str, password: &str) -> (r: Result<StoredUser, AuthError>)
    ensures
        match r {
            Ok(user) => made_for(user@, email@, password@),
            Err(e) => e == AuthError::HashingFailed,
        },
{
    let password_hash: String = match hash_password(password) {
        Ok(hash) => hash,
        Err(e) => {
            return Err(e);
        },
    };
    Ok(
        StoredUser {
            id: fresh_id(),
            email: email.to_owned(),
            password_hash,
            created_at: now_rfc3339(),
        },
    )
}

/// Opens the session of a registered user at second `now`.
pub fn open_session(tokens: &TokenService, user: &StoredUser, now: i64) -> (r: Result<
    AuthResponse,
    AuthError,
>)
    ensures
        outcome_of(r) == user_session(user@, tokens.secret(), now),
        r matches Ok(response) ==> tokens.issues(
            response@.token,
            user_claims(user@, expiry_of(now, REGISTERED_TTL_HOURS)->0),
        ),
{
    match tokens.issue_at(
        user.id.as_str(),
        Some(user.email.as_str()),
        false,
        REGISTERED_TTL_HOURS,
        now,
    ) {
        Ok(token) => Ok(AuthResponse { token, user: user.public() }),
        Err(e) => Err(e),
    }
}

/// Writes `user` into the store and opens its session, at second `now`. The
/// token is made first and the record written last, so a failure leaves the
/// store as it was. The test for the e-mail address and the write are one
/// step on a store that the caller holds alone.
pub fn enroll(
    store: &mut CredentialStore,
    tokens: &TokenService,
    user: StoredUser,
    now: i64,
) -> (r: Result<AuthResponse, AuthError>)
    ensures
        consistent(old(store)@),
        consistent(final(store)@),
        match enrollment(old(store)@, user@, tokens.secret(), now) {
            Ok((users, response)) => outcome_of(r) == Ok::<AuthResponseView, AuthError>(response)
                && final(store)@ == users,
            Err(e) => outcome_of(r) == Err::<AuthResponseView, AuthError>(e) && final(store)@
                == old(store)@,
        },
        r matches Ok(response) ==> tokens.issues(
            response@.token,
            user_claims(user@, expiry_of(now, REGISTERED_TTL_HOURS)->0),
        ),
{
    if store.contains_email(user.email.as_str()) {
        return Err(AuthError::EmailTaken);
    }
    let response: AuthResponse = match open_session(tokens, &user, now) {
        Ok(response) => response,
        Err(e) => {
            return Err(e);
        },
    };
    let written = store.insert(user);
    assert(written is Ok);
    Ok(response)
}

/// Writes `user` into the store and opens its session, by the system
/// clock. The one failure left is `EmailTaken`.
pub fn enroll_now(
    store: &mut CredentialStore,
    tokens: &TokenService,
    user: StoredUser,
) -> (r: Result<AuthResponse, AuthError>)
    ensures
        consistent(old(store)@),
        consistent(final(store)@),
        has_email(old(store)@, user@.email) ==> outcome_of(r) == Err::<AuthResponseView, AuthError>(
            AuthError::EmailTaken,
        ) && final(store)@ == old(store)@,
        !has_email(old(store)@, user@.email) ==> (r matches Ok(response) && exists|now: i64|
            {
                &&& 0 <= now
                &&& #[trigger] enrollment(old(store)@, user@, tokens.secret(), now) == Ok::<
                    (Seq<StoredUserView>, AuthResponseView),
                    AuthError,
                >((final(store)@, response@))
                &&& tokens.issues(
                    response@.token,
                    user_claims(user@, expiry_of(now, REGISTERED_TTL_HOURS)->0),
                )
            }),
{
    let now: i64 = now_seconds();
    let ghost record = user@;
    let r = enroll(store, tokens, user, now);
    proof {
        assert(expiry_of(now, REGISTERED_TTL_HOURS) is Some);
        if r is Ok {
            let response = r->Ok_0;
            assert(enrollment(old(store)@, record, tokens.secret(), now) == Ok::<
                (Seq<StoredUserView>, AuthResponseView),
                AuthError,
            >((store@, response@)));
        }
    }
    r
}

/// Registers a user and opens its session. The shape of the request is
/// checked first, then the e-mail address against the store; only then is
/// the password hashed. Every failure leaves the store as it was. Where the
/// request is in order the one failure left is that of hashing, which this
/// function cannot foresee.
pub fn register(
    store: &mut CredentialStore,
    tokens: &TokenService,
    email: &str,
    password: &str,
) -> (r: Result<AuthResponse, AuthError>)
    ensures
        consistent(old(store)@),
        consistent(final(store)@),
        match refusal(old(store)@, email@, password@) {
            Some(e) => outcome_of(r) == Err::<AuthResponseView, AuthError>(e) && final(store)@
                == old(store)@,
            None => match r {
                Err(e) => e == AuthError::HashingFailed && final(store)@ == old(store)@,
                Ok(response) => exists|user: StoredUserView, now: i64|
                    {
                        &&& 0 <= now
                        &&& made_for(user, email@, password@)
                        &&& #[trigger] enrollment(old(store)@, user, tokens.secret(), now) == Ok::<
                            (Seq<StoredUserView>, AuthResponseView),
                            AuthError,
                        >((final(store)@, response@))
                        &&& tokens.issues(
                            response@.token,
                            user_claims(user, expiry_of(now, REGISTERED_TTL_HOURS)->0),
                        )
                    },
            },
        },
{
    match check_registration(store, email, password) {
        Ok(()) => {},
        Err(e) => {
            return Err(e);
        },
    }
    let user: StoredUser = match new_user(email, password) {
        Ok(user) => user,
        Err(e) => {
            return Err(e);
        },
    };
    let ghost record = user@;
    let r = enroll_now(store, tokens, user);
    proof {
        let response = r->Ok_0;
        let now = choose|now: i64|
            {
                &&& 0 <= now
                &&& #[trigger] enrollment(old(store)@, record, tokens.secret(), now) == Ok::<
                    (Seq<StoredUserView>, AuthResponseView),
                    AuthError,
                >((store@, response@))
                &&& tokens.issues(
                    response@.token,
                    user_claims(record, expiry_of(now, REGISTERED_TTL_HOURS)->0),
                )
            };
        assert(enrollment(old(store)@, record, tokens.secret(), now) == Ok::<
            (Seq<StoredUserView>, AuthResponseView),
            AuthError,
        >((store@, response@)));
    }
    r
}

/// Answers a login once the record is found and the password check has
/// answered, at second `now`.
pub fn grant_login(
    tokens: &TokenService,
    user: &StoredUser,
    verdict: Result<bool, AuthError>,
    now: i64,
) -> (r: Result<AuthResponse, AuthError>)
    ensures
        outcome_of(r) == grant_outcome(user@, tokens.secret(), verdict, now),
        r matches Ok(response) ==> tokens.issues(
            response@.token,
            user_claims(user@, expiry_of(now, REGISTERED_TTL_HOURS)->0),
        ),
{
    match verdict {
        Err(e) => Err(e),
        Ok(false) => Err(AuthError::InvalidCredentials),
        Ok(true) => open_session(tokens, user, now),
    }
}

/// Logs a user in at second `now`.
pub fn login_at(
    store: &CredentialStore,
    tokens: &TokenService,
    email: &str,
    password: &str,
    now: i64,
) -> (r: Result<AuthResponse, AuthError>)
    ensures
        outcome_of(r) == login_outcome(store@, tokens.secret(), email@, password@, now),
        r matches Ok(response) ==> find_email(store@, email@) matches Some(user) && tokens.issues(
            response@.token,
            user_claims(user, expiry_of(now, REGISTERED_TTL_HOURS)->0),
        ),
{
    match store.find_by_email(email) {
        None => Err(AuthError::InvalidCredentials),
        Some(user) => {
            let verdict = verify_password(user.password_hash.as_str(), password);
            grant_login(tokens, user, verdict, now)
        },
    }
}

/// Logs a user in, by the system clock.
pub fn login(store: &CredentialStore, tokens: &TokenService, email: &str, password: &str) -> (r:
    Result<AuthResponse, AuthError>)
    ensures
        exists|now: i64|
            {
                &&& 0 <= now
                &&& outcome_of(r) == #[trigger] login_outcome(
                    store@,
                    tokens.secret(),
                    email@,
                    password@,
                    now,
                )
                &&& r matches Ok(response) ==> find_email(store@, email@) matches Some(user)
                    && tokens.issues(
                    response@.token,
                    user_claims(user, expiry_of(now, REGISTERED_TTL_HOURS)->0),
                )
            },
{
    let now: i64 = now_seconds();
    let r = login_at(store, tokens, email, password, now);
    assert(outcome_of(r) == login_outcome(store@, tokens.secret(), email@, password@, now));
    r
}

/// Opens the session of the guest `id` at second `now`.
pub fn guest_session(tokens: &TokenService, id: String, created_at: String, now: i64) -> (r: Result<
    AuthResponse,
    AuthError,
>)
    ensures
        outcome_of(r) == guest_outcome(id@, created_at@, tokens.secret(), now),
        r matches Ok(response) ==> tokens.issues(
            response@.token,
            guest_claims(id@, expiry_of(now, GUEST_TTL_HOURS)->0),
        ),
{
    match tokens.issue_at(id.as_str(), None, true, GUEST_TTL_HOURS, now) {
        Ok(token) => Ok(
            AuthResponse { token, user: User { id, email: None, is_guest: true, created_at } },
        ),
        Err(e) => Err(e),
    }
}

/// Opens a guest session under a fresh identifier, by the system clock.
/// The store is not touched. The request cannot fail.
pub fn login_as_guest(tokens: &TokenService) -> (r: Result<AuthResponse, AuthError>)
    ensures
        r matches Ok(response) && exists|now: i64|
            {
                &&& 0 <= now
                &&& Ok::<AuthResponseView, AuthError>(response@) == #[trigger] guest_outcome(
                    response@.user.id,
                    response@.user.created_at,
                    tokens.secret(),
                    now,
                )
                &&& tokens.issues(
                    response@.token,
                    guest_claims(response@.user.id, expiry_of(now, GUEST_TTL_HOURS)->0),
                )
            },
{
    let id: String = fresh_id();
    let created_at: String = now_rfc3339();
    let now: i64 = now_seconds();
    let r = guest_session(tokens, id, created_at, now);
    proof {
        assert(expiry_of(now, GUEST_TTL_HOURS) is Some);
        let response = r->Ok_0;
        assert(Ok::<AuthResponseView, AuthError>(response@) == guest_outcome(
            response@.user.id,
            response@.user.created_at,
            tokens.secret(),
            now,
        ));
    }
    r
}

/// Issues a token for `user_id` that holds for `hours` hours from now, by
/// the system clock.
pub fn create_token(
    tokens: &TokenService,
    user_id: &str,
    email: Option<&str>,
    is_guest: bool,
    hours: i64,
) -> (r: Result<String, AuthError>)
    ensures
        exists|now: i64|
            0 <= now && match #[trigger] expiry_of(now, hours) {
                None => r == Err::<String, AuthError>(AuthError::TokenCreationFailed),
                Some(exp) => r matches Ok(token) && tokens.issues(
                    token@,
                    ClaimsView { sub: user_id@, email: slice_text_of(email), exp, is_guest },
                ),
            },
{
    let now: i64 = now_seconds();
    let r = tokens.issue_at(user_id, email, is_guest, hours, now);
    assert(match expiry_of(now, hours) {
        None => r == Err::<String, AuthError>(AuthError::TokenCreationFailed),
        Some(exp) => r matches Ok(token) && tokens.issues(
            token@,
            ClaimsView { sub: user_id@, email: slice_text_of(email), exp, is_guest },
        ),
    });
    r
}

/// Reads the claims behind an `Authorization` header at second `now`.
/// A header that is missing or is no bearer header, and a token that does
/// not validate, end in the same `InvalidToken`.
pub fn extract_claims_at(
    tokens: &TokenService,
    authorization: Option<&str>,
    now: i64,
) -> (r: Result<Claims, AuthError>)
    ensures
        claims_outcome(r) == header_outcome(slice_text_of(authorization), tokens.secret(), now),
{
    match bearer_token(authorization) {
        None => Err(AuthError::InvalidToken),
        Some(token) => tokens.validate_at(token, now),
    }
}

/// Reads the claims behind an `Authorization` header, by the system clock.
pub fn extract_claims(tokens: &TokenService, authorization: Option<&str>) -> (r: Result<
    Claims,
    AuthError,
>)
    ensures
        exists|now: i64|
            0 <= now && claims_outcome(r) == #[trigger] header_outcome(
                slice_text_of(authorization),
                tokens.secret(),
                now,
            ),
{
    let now: i64 = now_seconds();
    let r = extract_claims_at(tokens, authorization, now);
    assert(claims_outcome(r) == header_outcome(
        slice_text_of(authorization),
        tokens.secret(),
        now,
    ));
    r
}

/// Answers the current-user request at second `now`. The user is what the
/// token says; the store is not asked. `created_at` is the timestamp shown
/// for the user.
pub fn current_user_at(
    tokens: &TokenService,
    authorization: Option<&str>,
    now: i64,
    created_at: String,
) -> (r: Result<User, AuthError>)
    ensures
        user_outcome(r) == current_user_outcome(
            slice_text_of(authorization),
            tokens.secret(),
            now,
            created_at@,
        ),
{
    match extract_claims_at(tokens, authorization, now) {
        Err(e) => Err(e),
        Ok(claims) => Ok(
            User { id: claims.sub, email: claims.email, is_guest: claims.is_guest, created_at },
        ),
    }
}

/// Answers the current-user request by the system clock. The timestamp
/// shown for the user is the time of the request: the token does not say
/// when the user was created.
pub fn get_current_user(tokens: &TokenService, authorization: Option<&str>) -> (r: Result<
    User,
    AuthError,
>)
    ensures
        exists|now: i64, created_at: Seq<char>|
            0 <= now && user_outcome(r) == #[trigger] current_user_outcome(
                slice_text_of(authorization),
                tokens.secret(),
                now,
                created_at,
            ),
{
    let now: i64 = now_seconds();
    let created_at: String = now_rfc3339();
    let ghost shown = created_at@;
    let r = current_user_at(tokens, authorization, now, created_at);
    assert(user_outcome(r) == current_user_outcome(
        slice_text_of(authorization),
        tokens.secret(),
        now,
        shown,
    ));
    r
}

/// Whoever has registered can log in. Take a registration of `email` with
/// `password` that went through at second `registered_at` and wrote
/// `user`. A login with the same e-mail address and password on the store
/// it left succeeds at every second `now` at which a token can be issued.
/// It answers with the registered user, and with the token signed for the
/// identifier and the address of that user.
pub proof fn lemma_register_then_login(
    users: Seq<StoredUserView>,
    user: StoredUserView,
    email: Seq<char>,
    password: Seq<char>,
    secret: Seq<u8>,
    registered_at: i64,
    now: i64,
)
    requires
        consistent(users),
        refusal(users, email, password) is None,
        made_for(user, email, password),
        enrollment(users, user, secret, registered_at) is Ok,
        expiry_of(now, REGISTERED_TTL_HOURS) is Some,
    ensures
        ({
            let (after, first) = enrollment(users, user, secret, registered_at)->Ok_0;
            &&& find_email(after, email) == Some(user)
            &&& login_outcome(after, secret, email, password, now) matches Ok(response)
            &&& response.user == first.user
            &&& response.user.id == user.id
            &&& response.token == signed_token(
                user.id,
                Some(email),
                expiry_of(now, REGISTERED_TTL_HOURS)->0,
                false,
                secret,
            )
        }),
{
    lemma_insert_claims_email(users, user);
}

/// Nobody registers an e-mail address twice. After a registration of
/// `email` went through and wrote `user`, a second registration of the
/// same address, whatever its password, is turned down as `EmailTaken`
/// unless its shape is turned down first, and the store the first one left
/// holds exactly one record for the address.
pub proof fn lemma_second_registration_refused(
    users: Seq<StoredUserView>,
    user: StoredUserView,
    email: Seq<char>,
    password: Seq<char>,
    secret: Seq<u8>,
    registered_at: i64,
    second_password: Seq<char>,
)
    requires
        consistent(users),
        refusal(users, email, password) is None,
        made_for(user, email, password),
        enrollment(users, user, secret, registered_at) is Ok,
    ensures
        ({
            let after = enrollment(users, user, secret, registered_at)->Ok_0.0;
            &&& consistent(after)
            &&& count_email(after, email) == 1
            &&& refusal(after, email, password) == Some(AuthError::EmailTaken)
            &&& shape_fault(email, second_password) is None ==> refusal(
                after,
                email,
                second_password,
            ) == Some(AuthError::EmailTaken)
        }),
{
    lemma_insert_claims_email(users, user);
}

/// A login with a known e-mail address and a wrong password, and a login
/// with an e-mail address that nobody holds, end in the same failure, with
/// the same status and the same message, at whatever time they are made.
pub proof fn lemma_login_failures_alike(
    users: Seq<StoredUserView>,
    secret: Seq<u8>,
    known_email: Seq<char>,
    wrong_password: Seq<char>,
    unknown_email: Seq<char>,
    any_password: Seq<char>,
    now: i64,
    later: i64,
)
    requires
        find_email(users, known_email) matches Some(user) && password_verdict(
            wrong_password,
            user.password_hash,
        ) == Some(false),
        !has_email(users, unknown_email),
    ensures
        login_outcome(users, secret, known_email, wrong_password, now) == Err::<
            AuthResponseView,
            AuthError,
        >(AuthError::InvalidCredentials),
        login_outcome(users, secret, unknown_email, any_password, later) == login_outcome(
            users,
            secret,
            known_email,
            wrong_password,
            now,
        ),
        AuthError::InvalidCredentials.spec_status() == 401,
        AuthError::InvalidCredentials.spec_message() == "Invalid email or password"@,
{
    lemma_find_email(users, unknown_email);
}

/// A guest's token reads back with the guest flag set and no e-mail
/// address; the token of a registered user reads back with the flag clear
/// and the user's e-mail address.
pub proof fn lemma_session_claims(
    tokens: TokenService,
    guest_token: Seq<char>,
    guest_id: Seq<char>,
    guest_exp: u64,
    user_token: Seq<char>,
    user: StoredUserView,
    user_exp: u64,
    at: i64,
)
    ensures
        tokens.issues(guest_token, guest_claims(guest_id, guest_exp)) && at <= guest_exp ==> {
            &&& tokens.validates(guest_token, at) matches Ok(claims)
            &&& claims.is_guest
            &&& claims.email is None
            &&& claims.sub == guest_id
            &&& claims.coherent()
        },
        tokens.issues(user_token, user_claims(user, user_exp)) && at <= user_exp ==> {
            &&& tokens.validates(user_token, at) matches Ok(claims)
            &&& !claims.is_guest
            &&& claims.email == Some(user.email)
            &&& claims.sub == user.id
            &&& claims.coherent()
        },
{
    lemma_lives_until_expiry(guest_claims(guest_id, guest_exp), at);
    lemma_lives_until_expiry(user_claims(user, user_exp), at);
}

} // verus!
