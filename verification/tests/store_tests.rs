use oauth_gateway::store::{AuthState, CredentialStore, Token};

#[test]
fn credential_store_starts_empty() {
    let store = CredentialStore::new();
    assert_eq!(store.retrieve(Token::AccessToken), "");
    assert_eq!(store.retrieve(Token::RefreshToken), "");
    assert_eq!(store.retrieve(Token::TokenDuration), "");
    assert_eq!(store.retrieve(Token::StateToken), "");
}

#[test]
fn credential_store_write_then_read() {
    let mut store = CredentialStore::new();
    store.write(Token::AccessToken, "AT".to_string());
    store.write(Token::RefreshToken, "RT".to_string());
    store.write(Token::TokenDuration, "3600".to_string());
    store.write(Token::StateToken, "S".to_string());
    assert_eq!(store.retrieve(Token::AccessToken), "AT");
    assert_eq!(store.retrieve(Token::RefreshToken), "RT");
    assert_eq!(store.retrieve(Token::TokenDuration), "3600");
    assert_eq!(store.retrieve(Token::StateToken), "S");
}

#[test]
fn credential_store_write_replaces_fully() {
    let mut store = CredentialStore::new();
    store.write(Token::AccessToken, "first".to_string());
    store.write(Token::AccessToken, "second".to_string());
    assert_eq!(store.retrieve(Token::AccessToken), "second");
    // the other fields are untouched
    assert_eq!(store.retrieve(Token::RefreshToken), "");
}

#[test]
fn auth_state_write_then_read() {
    let shared = AuthState::new();
    assert_eq!(shared.retrieve(Token::AccessToken), "");
    shared.write(Token::AccessToken, "AT".to_string());
    shared.write(Token::StateToken, "S".to_string());
    assert_eq!(shared.retrieve(Token::AccessToken), "AT");
    assert_eq!(shared.retrieve(Token::StateToken), "S");
    assert_eq!(shared.retrieve(Token::RefreshToken), "");
}

#[test]
fn auth_state_snapshot_reads_all_fields() {
    let shared = AuthState::new();
    shared.write(Token::AccessToken, "AT".to_string());
    shared.write(Token::RefreshToken, "RT".to_string());
    shared.write(Token::TokenDuration, "60".to_string());
    let snap = shared.snapshot();
    assert_eq!(snap.access_token, "AT");
    assert_eq!(snap.refresh_token, "RT");
    assert_eq!(snap.token_duration, "60");
    assert_eq!(snap.csrf_state, "");
}
