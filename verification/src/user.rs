//! The records the service keeps and the shapes it answers with.

use vstd::prelude::*;

verus! {

/// What a stored user is, as plain text.
pub struct StoredUserView {
    pub id: Seq<char>,
    pub email: Seq<char>,
    pub password_hash: Seq<char>,
    pub created_at: Seq<char>,
}

/// What a user is to the outside, as plain text.
pub struct UserView {
    pub id: Seq<char>,
    pub email: Option<Seq<char>>,
    pub is_guest: bool,
    pub created_at: Seq<char>,
}

/// What a successful register, login or guest request answers, as plain text.
pub struct AuthResponseView {
    pub token: Seq<char>,
    pub user: UserView,
}

/// The text of an optional string.
pub open spec fn text_of(s: Option<String>) -> Option<Seq<char>> {
    match s {
        Some(t) => Some(t@),
        None => None,
    }
}

/// The text of an optional string slice.
pub open spec fn slice_text_of(s: Option<&str>) -> Option<Seq<char>> {
    match s {
        Some(t) => Some(t@),
        None => None,
    }
}

impl StoredUserView {
    /// The outward face of a registered user: its e-mail address is shown, it
    /// is no guest, and the password hash is left out.
    pub open spec fn public(self) -> UserView {
        UserView {
            id: self.id,
            email: Some(self.email),
            is_guest: false,
            created_at: self.created_at,
        }
    }
}

/// A registered user as the credential store keeps it. A record is written
/// once, on registration, and not changed afterwards.
#[derive(Debug, Clone)]
pub struct StoredUser {
    /// The identifier the service generated for the user.
    pub id: String,
    /// The e-mail address, compared case-sensitively.
    pub email: String,
    /// The salted one-way hash of the password.
    pub password_hash: String,
    /// When the user registered, as an RFC 3339 timestamp.
    pub created_at: String,
}

impl View for StoredUser {
    type V = StoredUserView;

    open spec fn view(&self) -> StoredUserView {
        StoredUserView {
            id: self.id@,
            email: self.email@,
            password_hash: self.password_hash@,
            created_at: self.created_at@,
        }
    }
}

impl StoredUser {
    /// The user as shown to the outside.
    pub fn public(&self) -> (user: User)
        ensures
            user@ == self@.public(),
    {
        User {
            id: self.id.clone(),
            email: Some(self.email.clone()),
            is_guest: false,
            created_at: self.created_at.clone(),
        }
    }
}

/// A user as shown to the outside. It is built anew for each answer.
#[derive(Debug, Clone)]
pub struct User {
    pub id: String,
    /// Present for a registered user, absent for a guest.
    pub email: Option<String>,
    pub is_guest: bool,
    /// An RFC 3339 timestamp.
    pub created_at: String,
}

impl View for User {
    type V = UserView;

    open spec fn view(&self) -> UserView {
        UserView {
            id: self.id@,
            email: text_of(self.email),
            is_guest: self.is_guest,
            created_at: self.created_at@,
        }
    }
}

/// The answer to a successful register, login or guest request.
#[derive(Debug)]
pub struct AuthResponse {
    /// The bearer token of the new session.
    pub token: String,
    pub user: User,
}

impl View for AuthResponse {
    type V = AuthResponseView;

    open spec fn view(&self) -> AuthResponseView {
        AuthResponseView { token: self.token@, user: self.user@ }
    }
}

/// What a request that answers with a session came to, as plain text.
pub open spec fn outcome_of(r: Result<AuthResponse, crate::error::AuthError>) -> Result<
    AuthResponseView,
    crate::error::AuthError,
> {
    match r {
        Ok(response) => Ok(response@),
        Err(e) => Err(e),
    }
}

} // verus!
