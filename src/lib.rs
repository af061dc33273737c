//! Registration, credential exchange and bearer-token checking for a small
//! to-do list service, with the placeholder to-do handlers.
//!
//! Password hashing and the HTTP layer live outside this library: the
//! functions here take the outcome of a hash or of a password check as plain
//! values and decide what happens next.
mod models;
mod store;
mod token;
mod auth;
mod todolist;

pub use models::{
    AuthError, CompleteEntryBody, CreateEntryBody, CreateUserBody, TodolistEntry, TokenClaims, User,
    UserView,
};
pub use store::{lemma_registrations_kept, registered_after, UserStore};
pub use token::{
    decode_claims, encode_claims, issue_token, lemma_unaccepted_signature_rejected, split_token,
    validate_token,
};
pub use auth::{create_user, finish_login, lookup_credentials};
pub use todolist::{create_entry, delete_entry, get_entries, index, update_entry};
