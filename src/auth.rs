//! Registration and the exchange of a username and password for a token.
//!
//! Hashing a password and checking one against a stored hash are slow and
//! happen outside the store's lock, in the service; these functions take
//! their outcome as a plain value and decide the rest.
use vstd::prelude::*;

use crate::models::{AuthError, TokenClaims, User};
use crate::store::UserStore;
use crate::token::{issue_token, issued_parts, issued_token, token_parts};

verus! {

/// Relies on uuid's Uuid::new_v4: a random identifier, of which nothing is
/// promised here.
#[verifier::external_body]
fn fresh_id() -> (r: u128) {
    uuid::Uuid::new_v4().as_u128()
}

/// Registers a user named `username` whose password hashed to
/// `password_hash`, under a fresh identifier, and returns the new user.
pub fn create_user(store: &mut UserStore, username: String, password_hash: String) -> (r: User)
    ensures
        r.username@ == username@,
        r.password@ == password_hash@,
        final(store)@ == old(store)@.push(r@),
{
    let id = fresh_id();
    let user = User { id, username, password: password_hash };
    let r = user.duplicate();
    store.add(user);
    r
}

/// The first step of a login: with a password given, the first user named
/// `username`, whose stored hash the password must then be checked against.
/// No user of that name, or no password, ends the login here, before any
/// hash is compared.
pub fn lookup_credentials(store: &UserStore, username: &str, password: Option<&str>) -> (r: Result<
    User,
    AuthError,
>)
    ensures
        password is None ==> r == Err::<User, AuthError>(AuthError::MissingCredentials),
        password is Some ==> match r {
            Ok(u) => exists|i: int|
                0 <= i < store@.len() && store@[i] == u@ && u.username@ == username@ && forall|
                    j: int,
                | 0 <= j < i ==> (#[trigger] store@[j]).username != username@,
            Err(e) => e == AuthError::UserNotFound && forall|j: int|
                0 <= j < store@.len() ==> (#[trigger] store@[j]).username != username@,
        },
{
    if password.is_none() {
        return Err(AuthError::MissingCredentials);
    }
    match store.find_by_username(username) {
        Some(i) => Ok(store.user_at(i).duplicate()),
        None => Err(AuthError::UserNotFound),
    }
}

/// The last step of a login: a token for `user` signed under `secret` where
/// the password matched the stored hash, and a rejection where it did not.
pub fn finish_login(secret: &[u8], user: &User, password_is_valid: bool) -> (r: Result<
    String,
    AuthError,
>)
    ensures
        !password_is_valid ==> r == Err::<String, AuthError>(AuthError::IncorrectPassword),
        password_is_valid ==> match r {
            Ok(t) => t@ == issued_token(secret@, user.id) && token_parts(t@) == Some(
                issued_parts(secret@, user.id),
            ),
            Err(_) => false,
        },
{
    if password_is_valid {
        let claims = TokenClaims { id: user.id };
        Ok(issue_token(secret, &claims))
    } else {
        Err(AuthError::IncorrectPassword)
    }
}

} // verus!
