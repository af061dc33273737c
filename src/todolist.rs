//! The to-do list handlers. They stand behind the bearer-token check and
//! do not yet keep any entries: each answers with a placeholder.
use vstd::prelude::*;
use vstd::string::*;

use crate::models::{AuthError, CompleteEntryBody, CreateEntryBody, TokenClaims};
use crate::token::{uuid_text, uuid_to_text};

verus! {

pub open spec fn status_text() -> Seq<char> {
    seq!['{', ' ', 's', 't', 'a', 't', 'u', 's', ':', ' ', 'O', 'K', ' ', '}']
}

pub open spec fn placeholder_text() -> Seq<char> {
    seq!['T', 'O', 'D', 'O']
}

pub open spec fn user_prefix() -> Seq<char> {
    seq!['U', 's', 'e', 'r', ':', ' ']
}

/// The answer of the service's root: a status marker.
pub fn index() -> (r: String)
    ensures
        r@ == status_text(),
{
    let r = String::from_str("{ status: OK }");
    proof {
        reveal_strlit("{ status: OK }");
        assert(r@ =~= status_text());
    }
    r
}

fn placeholder() -> (r: String)
    ensures
        r@ == placeholder_text(),
{
    let r = String::from_str("TODO");
    proof {
        reveal_strlit("TODO");
        assert(r@ =~= placeholder_text());
    }
    r
}

/// Lists the entries of the user the verified token names: for now, that
/// user's identifier, as `User: <uuid>`. Without a verified identity the
/// request is refused.
pub fn get_entries(req_user: Option<TokenClaims>) -> (r: Result<String, AuthError>)
    ensures
        match req_user {
            Some(c) => match r {
                Ok(s) => s@ == user_prefix() + uuid_text(c.id),
                Err(_) => false,
            },
            None => r == Err::<String, AuthError>(AuthError::MissingIdentity),
        },
{
    match req_user {
        Some(c) => {
            let id_text = uuid_to_text(c.id);
            let mut s = String::from_str("User: ");
            s.append(id_text.as_str());
            proof {
                reveal_strlit("User: ");
                assert(s@ =~= user_prefix() + uuid_text(c.id));
            }
            Ok(s)
        },
        None => Err(AuthError::MissingIdentity),
    }
}

/// Creates an entry titled as `body` says: not kept yet, answered with a
/// placeholder.
pub fn create_entry(body: &CreateEntryBody) -> (r: String)
    ensures
        r@ == placeholder_text(),
{
    placeholder()
}

/// Marks entry `id` done or not done: not kept yet, answered with a
/// placeholder.
pub fn update_entry(id: i32, body: &CompleteEntryBody) -> (r: String)
    ensures
        r@ == placeholder_text(),
{
    placeholder()
}

/// Deletes entry `id`: not kept yet, answered with a placeholder.
pub fn delete_entry(id: i32) -> (r: String)
    ensures
        r@ == placeholder_text(),
{
    placeholder()
}

} // verus!
