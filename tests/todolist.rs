use todo_auth::{
    create_entry, delete_entry, get_entries, index, update_entry, AuthError, CompleteEntryBody,
    CreateEntryBody, TokenClaims,
};

#[test]
fn index_reports_status() {
    assert_eq!(index(), "{ status: OK }");
}

#[test]
fn entries_echo_verified_identity() {
    let claims = TokenClaims { id: 0x123e4567_e89b_12d3_a456_426614174000 };
    assert_eq!(
        get_entries(Some(claims)),
        Ok("User: 123e4567-e89b-12d3-a456-426614174000".to_string())
    );
}

#[test]
fn entries_without_identity_are_refused() {
    assert_eq!(get_entries(None), Err(AuthError::MissingIdentity));
}

#[test]
fn entry_handlers_answer_placeholder() {
    assert_eq!(create_entry(&CreateEntryBody { title: "milk".to_string() }), "TODO");
    assert_eq!(update_entry(3, &CompleteEntryBody { complete: true }), "TODO");
    assert_eq!(delete_entry(3), "TODO");
}
