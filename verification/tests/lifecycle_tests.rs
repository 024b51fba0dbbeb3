use oauth_gateway::json::JsonValue;
use oauth_gateway::lifecycle::{apply_redemption, apply_refresh, redeem_response_step,
    refresh_delay, refresh_response_step, start_authorization, validate_callback, AuthStart,
    CallbackError, CallbackQuery, TokenError, MIN_REFRESH_DELAY_SECS};
use oauth_gateway::oauth::Credentials;
use oauth_gateway::store::{CredentialStore, Token};

fn store_with_state(state: &str) -> CredentialStore {
    let mut store = CredentialStore::new();
    store.write(Token::StateToken, state.to_string());
    store
}

fn query(state: Option<&str>, code: Option<&str>, error: Option<&str>) -> CallbackQuery {
    CallbackQuery {
        state: state.map(|s| s.to_string()),
        code: code.map(|s| s.to_string()),
        error: error.map(|s| s.to_string()),
    }
}

#[test]
fn callback_with_matching_state_and_code_is_accepted() {
    let store = store_with_state("expected");
    let r = validate_callback(&store, &query(Some("expected"), Some("abc"), None));
    assert_eq!(r, Ok("abc".to_string()));
}

#[test]
fn callback_with_wrong_state_is_rejected_and_store_untouched() {
    let store = store_with_state("expected");
    let r = validate_callback(&store, &query(Some("forged"), Some("abc"), None));
    assert_eq!(r, Err(CallbackError::StateMismatch));
    // validation cannot and does not mutate: the tokens are as they were
    assert_eq!(store.retrieve(Token::AccessToken), "");
    assert_eq!(store.retrieve(Token::RefreshToken), "");
    assert_eq!(store.retrieve(Token::StateToken), "expected");
}

#[test]
fn callback_without_state_is_rejected() {
    let store = store_with_state("expected");
    let r = validate_callback(&store, &query(None, Some("abc"), None));
    assert_eq!(r, Err(CallbackError::MissingState));
}

#[test]
fn callback_with_provider_error_is_surfaced() {
    let store = store_with_state("expected");
    let r = validate_callback(&store, &query(Some("expected"), None, Some("access_denied")));
    assert_eq!(r, Err(CallbackError::ProviderDeclined("access_denied".to_string())));
}

#[test]
fn callback_without_code_or_error_is_rejected() {
    let store = store_with_state("expected");
    let r = validate_callback(&store, &query(Some("expected"), None, None));
    assert_eq!(r, Err(CallbackError::MissingCode));
}

fn token_doc(at: Option<JsonValue>, rt: Option<JsonValue>, exp: Option<JsonValue>) -> JsonValue {
    let mut fields: Vec<(String, JsonValue)> = Vec::new();
    if let Some(v) = at {
        fields.push(("access_token".to_string(), v));
    }
    if let Some(v) = rt {
        fields.push(("refresh_token".to_string(), v));
    }
    if let Some(v) = exp {
        fields.push(("expires_in".to_string(), v));
    }
    JsonValue::Object(fields)
}

#[test]
fn redemption_writes_all_three_fields() {
    let mut store = store_with_state("S");
    let doc = token_doc(
        Some(JsonValue::Str("AT".to_string())),
        Some(JsonValue::Str("RT".to_string())),
        Some(JsonValue::Num("3600".to_string())),
    );
    assert_eq!(apply_redemption(&mut store, &doc), Ok(3600));
    assert_eq!(store.retrieve(Token::AccessToken), "AT");
    assert_eq!(store.retrieve(Token::RefreshToken), "RT");
    assert_eq!(store.retrieve(Token::TokenDuration), "3600");
    assert_eq!(store.retrieve(Token::StateToken), "S");
}

#[test]
fn redemption_strips_wrapping_quotes() {
    let mut store = CredentialStore::new();
    let doc = token_doc(
        Some(JsonValue::Str("\"AT\"".to_string())),
        Some(JsonValue::Str("'RT'".to_string())),
        Some(JsonValue::Str("3600".to_string())),
    );
    assert_eq!(apply_redemption(&mut store, &doc), Ok(3600));
    assert_eq!(store.retrieve(Token::AccessToken), "AT");
    assert_eq!(store.retrieve(Token::RefreshToken), "RT");
}

#[test]
fn redemption_missing_fields_leave_store_unchanged() {
    let mut store = CredentialStore::new();
    let no_access = token_doc(None, Some(JsonValue::Str("RT".to_string())), None);
    assert_eq!(apply_redemption(&mut store, &no_access), Err(TokenError::MissingAccessToken));
    let no_refresh = token_doc(
        Some(JsonValue::Str("AT".to_string())),
        None,
        Some(JsonValue::Num("60".to_string())),
    );
    assert_eq!(apply_redemption(&mut store, &no_refresh), Err(TokenError::MissingRefreshToken));
    let no_expiry = token_doc(
        Some(JsonValue::Str("AT".to_string())),
        Some(JsonValue::Str("RT".to_string())),
        None,
    );
    assert_eq!(apply_redemption(&mut store, &no_expiry), Err(TokenError::MissingExpiry));
    let bad_expiry = token_doc(
        Some(JsonValue::Str("AT".to_string())),
        Some(JsonValue::Str("RT".to_string())),
        Some(JsonValue::Str("soon".to_string())),
    );
    assert_eq!(apply_redemption(&mut store, &bad_expiry), Err(TokenError::InvalidExpiry));
    assert_eq!(store.retrieve(Token::AccessToken), "");
    assert_eq!(store.retrieve(Token::RefreshToken), "");
    assert_eq!(store.retrieve(Token::TokenDuration), "");
}

#[test]
fn redemption_null_access_token_counts_as_missing() {
    let mut store = CredentialStore::new();
    let doc = token_doc(
        Some(JsonValue::Null),
        Some(JsonValue::Str("RT".to_string())),
        Some(JsonValue::Num("60".to_string())),
    );
    assert_eq!(apply_redemption(&mut store, &doc), Err(TokenError::MissingAccessToken));
}

#[test]
fn refresh_without_refresh_token_preserves_it() {
    let mut store = CredentialStore::new();
    store.write(Token::RefreshToken, "OLD".to_string());
    let doc = token_doc(
        Some(JsonValue::Str("AT2".to_string())),
        None,
        Some(JsonValue::Num("1800".to_string())),
    );
    assert_eq!(apply_refresh(&mut store, &doc), Ok(1800));
    assert_eq!(store.retrieve(Token::AccessToken), "AT2");
    assert_eq!(store.retrieve(Token::RefreshToken), "OLD");
    assert_eq!(store.retrieve(Token::TokenDuration), "1800");
}

#[test]
fn refresh_with_null_refresh_token_preserves_it() {
    let mut store = CredentialStore::new();
    store.write(Token::RefreshToken, "OLD".to_string());
    let doc = token_doc(
        Some(JsonValue::Str("AT2".to_string())),
        Some(JsonValue::Null),
        Some(JsonValue::Num("1800".to_string())),
    );
    assert_eq!(apply_refresh(&mut store, &doc), Ok(1800));
    assert_eq!(store.retrieve(Token::RefreshToken), "OLD");
}

#[test]
fn refresh_with_new_refresh_token_overwrites_it() {
    let mut store = CredentialStore::new();
    store.write(Token::RefreshToken, "OLD".to_string());
    let doc = token_doc(
        Some(JsonValue::Str("AT2".to_string())),
        Some(JsonValue::Str("NEW".to_string())),
        Some(JsonValue::Num("1800".to_string())),
    );
    assert_eq!(apply_refresh(&mut store, &doc), Ok(1800));
    assert_eq!(store.retrieve(Token::RefreshToken), "NEW");
}

#[test]
fn refresh_failure_leaves_tokens_in_place() {
    let mut store = CredentialStore::new();
    store.write(Token::AccessToken, "AT".to_string());
    store.write(Token::RefreshToken, "RT".to_string());
    let doc = token_doc(None, Some(JsonValue::Str("NEW".to_string())), None);
    assert_eq!(apply_refresh(&mut store, &doc), Err(TokenError::MissingAccessToken));
    assert_eq!(store.retrieve(Token::AccessToken), "AT");
    assert_eq!(store.retrieve(Token::RefreshToken), "RT");
}

#[test]
fn response_steps_parse_bodies() {
    let mut store = CredentialStore::new();
    let r = redeem_response_step(
        &mut store,
        "{\"access_token\":\"AT\",\"refresh_token\":\"RT\",\"expires_in\":3600}",
    );
    assert_eq!(r, Ok(3600));
    assert_eq!(store.retrieve(Token::AccessToken), "AT");
    assert_eq!(store.retrieve(Token::RefreshToken), "RT");

    let r = refresh_response_step(&mut store, "{\"access_token\":\"AT2\",\"expires_in\":60}");
    assert_eq!(r, Ok(60));
    assert_eq!(store.retrieve(Token::AccessToken), "AT2");
    assert_eq!(store.retrieve(Token::RefreshToken), "RT");
}

#[test]
fn response_steps_reject_malformed_bodies() {
    let mut store = CredentialStore::new();
    store.write(Token::AccessToken, "AT".to_string());
    assert_eq!(redeem_response_step(&mut store, "not json"), Err(TokenError::MalformedBody));
    assert_eq!(refresh_response_step(&mut store, "{"), Err(TokenError::MalformedBody));
    assert_eq!(store.retrieve(Token::AccessToken), "AT");
}

#[test]
fn refresh_delay_subtracts_margin_and_clamps() {
    assert_eq!(refresh_delay(3600), 3300);
    assert_eq!(refresh_delay(301), 1);
    assert_eq!(refresh_delay(300), MIN_REFRESH_DELAY_SECS);
    assert_eq!(refresh_delay(0), MIN_REFRESH_DELAY_SECS);
}

#[test]
fn start_authorization_writes_state_and_redirects() {
    let mut store = CredentialStore::new();
    let creds = Credentials { username: "client123".to_string(), password: None };
    let r = start_authorization(&mut store, creds, Some(vec!["user-read-currently-playing"]),
        "https://example.org/authorized");
    let state = store.retrieve(Token::StateToken);
    assert_eq!(state.len(), 64);
    assert!(state.chars().all(|c| c.is_ascii_alphanumeric()));
    match r {
        AuthStart::Redirect(url) => {
            let expected = format!(
                "https://accounts.spotify.com/authorize?client_id=client123&response_type=code&redirect_uri=https://example.org/authorized&scope=user-read-currently-playing&state={}",
                state
            );
            assert_eq!(url, expected);
        },
        AuthStart::AlreadyAuthorized => panic!("expected a redirect"),
    }
}

#[test]
fn start_authorization_reports_when_already_in_flight() {
    let mut store = store_with_state("already");
    let creds = Credentials { username: "client123".to_string(), password: None };
    let r = start_authorization(&mut store, creds, None, "https://example.org/authorized");
    assert_eq!(r, AuthStart::AlreadyAuthorized);
    assert_eq!(store.retrieve(Token::StateToken), "already");
}
