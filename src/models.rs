use vstd::prelude::*;

verus! {

/// A registered account. `id` is the 128-bit value of its UUID and
/// `password` holds the keyed hash of the password, never the password.
#[derive(Clone, Debug)]
pub struct User {
    pub id: u128,
    pub username: String,
    pub password: String,
}

/// The mathematical value of a [`User`].
pub ghost struct UserView {
    pub id: u128,
    pub username: Seq<char>,
    pub password: Seq<char>,
}

impl View for User {
    type V = UserView;

    open spec fn view(&self) -> UserView {
        UserView { id: self.id, username: self.username@, password: self.password@ }
    }
}

impl User {
    /// A copy of this user, field by field.
    pub fn duplicate(&self) -> (r: User)
        ensures
            r@ == self@,
    {
        User { id: self.id, username: self.username.clone(), password: self.password.clone() }
    }
}

/// What a client sends to register.
#[derive(Clone, Debug)]
pub struct CreateUserBody {
    pub username: String,
    pub password: String,
}

/// What a signed token carries: the identifier of the user it was issued to.
#[derive(Clone, Copy, Debug, PartialEq, Eq, Structural)]
pub struct TokenClaims {
    pub id: u128,
}

/// One entry of a to-do list.
#[derive(Clone, Debug)]
pub struct TodolistEntry {
    pub id: i32,
    pub complete: bool,
    pub title: String,
}

/// What a client sends to create a to-do entry.
#[derive(Clone, Debug)]
pub struct CreateEntryBody {
    pub title: String,
}

/// What a client sends to mark a to-do entry as done or not done.
#[derive(Clone, Copy, Debug, PartialEq, Eq, Structural)]
pub struct CompleteEntryBody {
    pub complete: bool,
}

/// Why a request was not authenticated. Every variant is answered with an
/// unauthorized response.
#[derive(Clone, Copy, Debug, PartialEq, Eq, Structural)]
pub enum AuthError {
    /// The request carried a username but no password.
    MissingCredentials,
    /// No registered user has the given username.
    UserNotFound,
    /// The password does not match the stored hash.
    IncorrectPassword,
    /// The bearer token is malformed, or its signature or header is not accepted.
    InvalidToken,
    /// A protected handler ran without a verified identity.
    MissingIdentity,
}

} // verus!
