use oauth_gateway::oauth::{api_endpoint_url, bearer_header, client_credentials_form,
    get_authorization_code, parse_credentials, redeem_token_form, token_endpoint_url, Credentials};

fn client() -> Credentials {
    Credentials { username: "client123".to_string(), password: None }
}

#[test]
fn authorization_url_with_scopes() {
    let url = get_authorization_code(
        client(),
        Some(vec!["user-read-currently-playing", "user-read-email"]),
        "https://example.org/authorized",
    );
    assert_eq!(
        url,
        "https://accounts.spotify.com/authorize?client_id=client123&response_type=code&redirect_uri=https://example.org/authorized&scope=user-read-currently-playing user-read-email"
    );
}

#[test]
fn authorization_url_without_scopes() {
    let url = get_authorization_code(client(), None, "https://example.org/authorized");
    assert_eq!(
        url,
        "https://accounts.spotify.com/authorize?client_id=client123&response_type=code&redirect_uri=https://example.org/authorized"
    );
}

#[test]
fn authorization_url_with_empty_scope_list_has_no_scope_parameter() {
    let url = get_authorization_code(client(), Some(vec![]), "https://example.org/authorized");
    assert_eq!(
        url,
        "https://accounts.spotify.com/authorize?client_id=client123&response_type=code&redirect_uri=https://example.org/authorized"
    );
}

#[test]
fn credentials_with_secret() {
    let creds = parse_credentials("myuser:my secret\n");
    assert_eq!(creds.username, "myuser");
    assert_eq!(creds.password, Some("my secret".to_string()));
}

#[test]
fn credentials_without_secret() {
    let creds = parse_credentials("bare-token");
    assert_eq!(creds.username, "bare-token");
    assert_eq!(creds.password, None);
}

#[test]
fn credentials_split_at_first_colon() {
    let creds = parse_credentials("user:se:cret");
    assert_eq!(creds.username, "user");
    assert_eq!(creds.password, Some("se:cret".to_string()));
}

#[test]
fn redeem_form_for_code() {
    let form = redeem_token_form("abc", "https://example.org/authorized", false);
    assert_eq!(form, vec![
        ("grant_type".to_string(), "authorization_code".to_string()),
        ("code".to_string(), "abc".to_string()),
        ("redirect_uri".to_string(), "https://example.org/authorized".to_string()),
    ]);
}

#[test]
fn redeem_form_for_refresh() {
    let form = redeem_token_form("RT", "https://example.org/authorized", true);
    assert_eq!(form[0], ("grant_type".to_string(), "refresh_token".to_string()));
    assert_eq!(form[1], ("code".to_string(), "RT".to_string()));
}

#[test]
fn client_credentials_form_is_one_pair() {
    assert_eq!(client_credentials_form(), vec![(
        "grant_type".to_string(),
        "client_credentials".to_string(),
    )]);
}

#[test]
fn endpoint_urls() {
    assert_eq!(token_endpoint_url(), "https://accounts.spotify.com/api/token");
    assert_eq!(api_endpoint_url(true, "api/token"), "https://accounts.spotify.com/api/token");
    assert_eq!(
        api_endpoint_url(false, "me/player/currently_playing"),
        "https://api.spotify.com/v1/me/player/currently_playing"
    );
}

#[test]
fn bearer_header_value() {
    assert_eq!(bearer_header("AT"), "Bearer AT");
}
