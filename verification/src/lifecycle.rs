//! The credential lifecycle: starting authorization, validating the provider
//! callback, applying redeemed and refreshed token responses to the store,
//! and computing the refresh schedule. The network exchanges in between run
//! outside the library; each step here is a function from plain values to
//! plain values with an exact contract.

use vstd::prelude::*;

use crate::json::{index_spec, json_doc_of, parse_json, scalar_text, JsonModel, JsonValue};
use crate::oauth::{authorization_url_spec, get_authorization_code, scopes_view, Credentials};
use crate::store::{CredentialStore, StoreModel, Token};
use crate::text::{all_digits, digits_val, strip_quotes_spec};

verus! {

/// Seconds before expiry at which a refresh is scheduled.
pub const REFRESH_MARGIN_SECS: u64 = 300;

/// The smallest positive delay a refresh is scheduled with, when the reported
/// lifetime is at or under the margin.
pub const MIN_REFRESH_DELAY_SECS: u64 = 1;

/// Delay before a failed refresh is tried again.
pub const REFRESH_RETRY_DELAY_SECS: u64 = 30;

/// The query parameters an authorization callback may carry.
#[derive(Debug, Clone)]
pub struct CallbackQuery {
    pub state: Option<String>,
    pub code: Option<String>,
    pub error: Option<String>,
}

/// Why a callback was rejected. Each is answered to the offending request;
/// none of them touches the process or the stored tokens.
#[derive(Debug, Clone, PartialEq)]
pub enum CallbackError {
    /// The callback carried no `state` parameter.
    MissingState,
    /// The callback's `state` differs from the stored CSRF value.
    StateMismatch,
    /// The provider declined authorization: the callback carried `error`.
    ProviderDeclined(String),
    /// The callback carried neither `code` nor `error`.
    MissingCode,
}

/// Why a token response could not be applied. On every one of these the
/// store is left exactly as it was.
#[derive(Debug, Clone, Copy, PartialEq, Eq, Structural)]
pub enum TokenError {
    /// The body is not a JSON document.
    MalformedBody,
    /// The body has no usable `access_token` field.
    MissingAccessToken,
    /// The body has no usable `refresh_token` field.
    MissingRefreshToken,
    /// The body has no usable `expires_in` field.
    MissingExpiry,
    /// The `expires_in` field is not a decimal number of seconds.
    InvalidExpiry,
}

/// The outcome of starting authorization.
#[derive(Debug, Clone, PartialEq)]
pub enum AuthStart {
    /// Authorization begins: redirect the caller to this URL.
    Redirect(String),
    /// A CSRF value is already present: authorization is in flight or done,
    /// and the caller is told so instead of being redirected.
    AlreadyAuthorized,
}

/// An alphanumeric ASCII character.
pub open spec fn is_alphanumeric_char(c: char) -> bool {
    (48 <= c as u32 && c as u32 <= 57) || (65 <= c as u32 && c as u32 <= 90) || (97 <= c as u32
        && c as u32 <= 122)
}

/// Relies on rand's Alphanumeric distribution, through SampleString: exactly
/// 64 characters drawn from 0-9, A-Z and a-z. The value depends on the thread
/// RNG, so only its length and alphabet are stated.
#[verifier::external_body]
fn random_state_token() -> (r: String)
    ensures
        r@.len() == 64,
        forall|i: int| 0 <= i < r@.len() ==> is_alphanumeric_char(#[trigger] r@[i]),
{
    rand::distr::SampleString::sample_string(&rand::distr::Alphanumeric, &mut rand::rng(), 64)
}

/// Starts the authorization flow when none is in flight: writes a fresh
/// 64-character alphanumeric CSRF value into the store and yields the
/// authorization URL with `&state=` and that value appended. When the stored
/// CSRF value is non-empty the store is left unchanged and the caller is told
/// authorization is already under way.
pub fn start_authorization(
    store: &mut CredentialStore,
    creds: Credentials,
    scopes: Option<Vec<&str>>,
    redirect: &str,
) -> (r: AuthStart)
    ensures
        old(store)@.csrf_state.len() != 0 ==> r == AuthStart::AlreadyAuthorized && *final(store)
            == *old(store),
        old(store)@.csrf_state.len() == 0 ==> {
            &&& final(store)@ == old(store)@.with_field(
                Token::StateToken,
                final(store)@.csrf_state,
            )
            &&& final(store)@.csrf_state.len() == 64
            &&& forall|i: int|
                0 <= i < 64 ==> is_alphanumeric_char(#[trigger] final(store)@.csrf_state[i])
            &&& r matches AuthStart::Redirect(u) && u@ == authorization_url_spec(
                creds.username@,
                scopes_view(scopes),
                redirect@,
            ) + "&state="@ + final(store)@.csrf_state
        },
{
    if !store.csrf_state.as_str().is_empty() {
        return AuthStart::AlreadyAuthorized;
    }
    let fresh = random_state_token();
    let mut url = get_authorization_code(creds, scopes, redirect);
    url.append("&state=");
    url.append(fresh.as_str());
    store.write(Token::StateToken, fresh);
    AuthStart::Redirect(url)
}

/// Validates a provider callback against the stored CSRF value: the callback
/// is accepted, with its code, exactly when it carries a `state` equal to the
/// stored value and a `code`; otherwise the one applicable rejection is
/// returned. Validation only reads the store, so a rejected callback leaves
/// every stored token as it was.
pub fn validate_callback(store: &CredentialStore, query: &CallbackQuery) -> (r: Result<
    String,
    CallbackError,
>)
    ensures
        match r {
            Ok(code) => {
                &&& query.state matches Some(s) && s@ == store@.csrf_state
                &&& query.code matches Some(c) && c@ == code@
            },
            Err(e) => match e {
                CallbackError::MissingState => query.state is None,
                CallbackError::StateMismatch => query.state matches Some(s) && s@
                    != store@.csrf_state,
                CallbackError::ProviderDeclined(msg) => {
                    &&& query.state matches Some(s) && s@ == store@.csrf_state
                    &&& query.code is None
                    &&& query.error matches Some(m) && m@ == msg@
                },
                CallbackError::MissingCode => {
                    &&& query.state matches Some(s) && s@ == store@.csrf_state
                    &&& query.code is None
                    &&& query.error is None
                },
            },
        },
{
    let s = match &query.state {
        Some(s) => s,
        None => {
            return Err(CallbackError::MissingState);
        },
    };
    if !(*s == store.csrf_state) {
        return Err(CallbackError::StateMismatch);
    }
    match &query.code {
        Some(c) => Ok(c.clone()),
        None => match &query.error {
            Some(m) => Err(CallbackError::ProviderDeclined(m.clone())),
            None => Err(CallbackError::MissingCode),
        },
    }
}

/// The text a token field is stored as: present and non-null, the field's
/// plain text with wrapping quotes stripped; a missing or null field yields
/// nothing.
pub open spec fn token_field(doc: JsonModel, name: Seq<char>) -> Option<Seq<char>> {
    match index_spec(doc, name) {
        Some(m) => if m is Null {
            None
        } else {
            Some(strip_quotes_spec(scalar_text(m)))
        },
        None => None,
    }
}

/// A stored expiry text that can schedule a refresh: a non-empty decimal
/// number of seconds that fits in 64 bits.
pub open spec fn valid_expiry(exp: Seq<char>) -> bool {
    exp.len() > 0 && all_digits(exp) && digits_val(exp) <= u64::MAX
}

/// What applying a code-redemption response does to the store: on a document
/// with usable access_token, refresh_token and expires_in fields, all three
/// are written and the expiry seconds are returned for scheduling; on
/// anything else the store is unchanged and the one applicable error is
/// returned.
pub open spec fn redemption_spec(m0: StoreModel, doc: Option<JsonModel>) -> (StoreModel, Result<
    u64,
    TokenError,
>) {
    match doc {
        None => (m0, Err(TokenError::MalformedBody)),
        Some(d) => match (token_field(d, "access_token"@), token_field(d, "refresh_token"@),
        token_field(d, "expires_in"@)) {
            (Some(at), Some(rt), Some(exp)) => if valid_expiry(exp) {
                (
                    StoreModel {
                        access_token: at,
                        refresh_token: rt,
                        token_duration: exp,
                        csrf_state: m0.csrf_state,
                    },
                    Ok(digits_val(exp) as u64),
                )
            } else {
                (m0, Err(TokenError::InvalidExpiry))
            },
            (None, _, _) => (m0, Err(TokenError::MissingAccessToken)),
            (_, None, _) => (m0, Err(TokenError::MissingRefreshToken)),
            (_, _, None) => (m0, Err(TokenError::MissingExpiry)),
        },
    }
}

/// What applying a refresh response does to the store: access_token and
/// expires_in are required and written; refresh_token is written only when
/// the document carries a non-null one, and is otherwise left as it was.
pub open spec fn refresh_spec(m0: StoreModel, doc: Option<JsonModel>) -> (StoreModel, Result<
    u64,
    TokenError,
>) {
    match doc {
        None => (m0, Err(TokenError::MalformedBody)),
        Some(d) => match (token_field(d, "access_token"@), token_field(d, "expires_in"@)) {
            (Some(at), Some(exp)) => if valid_expiry(exp) {
                let rt = match token_field(d, "refresh_token"@) {
                    Some(fresh) => fresh,
                    None => m0.refresh_token,
                };
                (
                    StoreModel {
                        access_token: at,
                        refresh_token: rt,
                        token_duration: exp,
                        csrf_state: m0.csrf_state,
                    },
                    Ok(digits_val(exp) as u64),
                )
            } else {
                (m0, Err(TokenError::InvalidExpiry))
            },
            (None, _) => (m0, Err(TokenError::MissingAccessToken)),
            (_, None) => (m0, Err(TokenError::MissingExpiry)),
        },
    }
}

/// Law: a refresh response lacking a `refresh_token` field, or carrying a
/// null one, leaves the stored refresh token unchanged; one carrying a
/// non-null value replaces the stored refresh token with that value's text;
/// and a refresh that fails changes nothing at all.
pub proof fn lemma_refresh_preserves_refresh_token(m0: StoreModel, d: JsonModel)
    ensures
        refresh_spec(m0, Some(d)).1 is Ok && (index_spec(d, "refresh_token"@) is None || index_spec(
            d,
            "refresh_token"@,
        ) == Some(JsonModel::Null)) ==> refresh_spec(m0, Some(d)).0.refresh_token
            == m0.refresh_token,
        refresh_spec(m0, Some(d)).1 is Ok && (index_spec(d, "refresh_token"@) matches Some(v) && !(v
            is Null)) ==> refresh_spec(m0, Some(d)).0.refresh_token == strip_quotes_spec(
            scalar_text(index_spec(d, "refresh_token"@)->Some_0),
        ),
        refresh_spec(m0, Some(d)).1 is Err ==> refresh_spec(m0, Some(d)).0 == m0,
{
}

fn token_field_exec(doc: &JsonValue, name: &str) -> (r: Option<String>)
    ensures
        match r {
            Some(t) => token_field(doc@, name@) == Some(t@),
            None => token_field(doc@, name@) is None,
        },
{
    match crate::json::index_field(doc, name) {
        Some(v) => match v {
            JsonValue::Null => None,
            _ => {
                let t = crate::json::scalar_to_text(v);
                Some(crate::text::strip_quotes(&t))
            },
        },
        None => None,
    }
}

/// Applies a code-redemption document to the store, as `redemption_spec` says.
pub fn apply_redemption(store: &mut CredentialStore, doc: &JsonValue) -> (r: Result<
    u64,
    TokenError,
>)
    ensures
        final(store)@ == redemption_spec(old(store)@, Some(doc@)).0,
        r == redemption_spec(old(store)@, Some(doc@)).1,
{
    let at = token_field_exec(doc, "access_token");
    let rt = token_field_exec(doc, "refresh_token");
    let exp = token_field_exec(doc, "expires_in");
    match (at, rt, exp) {
        (Some(at), Some(rt), Some(exp)) => {
            let secs = match crate::text::parse_u64(exp.as_str()) {
                Some(n) => n,
                None => {
                    return Err(TokenError::InvalidExpiry);
                },
            };
            store.access_token = at;
            store.refresh_token = rt;
            store.token_duration = exp;
            proof {
                assert(store@ =~= redemption_spec(old(store)@, Some(doc@)).0);
            }
            Ok(secs)
        },
        (None, _, _) => Err(TokenError::MissingAccessToken),
        (_, None, _) => Err(TokenError::MissingRefreshToken),
        (_, _, None) => Err(TokenError::MissingExpiry),
    }
}

/// Applies a refresh document to the store, as `refresh_spec` says.
pub fn apply_refresh(store: &mut CredentialStore, doc: &JsonValue) -> (r: Result<u64, TokenError>)
    ensures
        final(store)@ == refresh_spec(old(store)@, Some(doc@)).0,
        r == refresh_spec(old(store)@, Some(doc@)).1,
{
    let at = token_field_exec(doc, "access_token");
    let exp = token_field_exec(doc, "expires_in");
    match (at, exp) {
        (Some(at), Some(exp)) => {
            let secs = match crate::text::parse_u64(exp.as_str()) {
                Some(n) => n,
                None => {
                    return Err(TokenError::InvalidExpiry);
                },
            };
            match token_field_exec(doc, "refresh_token") {
                Some(fresh) => {
                    store.refresh_token = fresh;
                },
                None => {},
            }
            store.access_token = at;
            store.token_duration = exp;
            proof {
                assert(store@ =~= refresh_spec(old(store)@, Some(doc@)).0);
            }
            Ok(secs)
        },
        (None, _) => Err(TokenError::MissingAccessToken),
        (_, None) => Err(TokenError::MissingExpiry),
    }
}

/// Parses a code-redemption response body and applies it to the store: the
/// full completion step after a validated callback's code was redeemed.
pub fn redeem_response_step(store: &mut CredentialStore, body: &str) -> (r: Result<u64, TokenError>)
    ensures
        final(store)@ == redemption_spec(old(store)@, json_doc_of(body@)).0,
        r == redemption_spec(old(store)@, json_doc_of(body@)).1,
{
    match parse_json(body) {
        Some(doc) => apply_redemption(store, &doc),
        None => Err(TokenError::MalformedBody),
    }
}

/// Parses a refresh response body and applies it to the store: one cycle of
/// the background refresh loop, once the network call came back.
pub fn refresh_response_step(store: &mut CredentialStore, body: &str) -> (r: Result<
    u64,
    TokenError,
>)
    ensures
        final(store)@ == refresh_spec(old(store)@, json_doc_of(body@)).0,
        r == refresh_spec(old(store)@, json_doc_of(body@)).1,
{
    match parse_json(body) {
        Some(doc) => apply_refresh(store, &doc),
        None => Err(TokenError::MalformedBody),
    }
}

/// The delay until the next refresh: the reported lifetime minus the safety
/// margin, clamped to a minimum positive delay instead of underflowing.
pub fn refresh_delay(expires_in: u64) -> (r: u64)
    ensures
        expires_in > REFRESH_MARGIN_SECS ==> r == expires_in - REFRESH_MARGIN_SECS,
        expires_in <= REFRESH_MARGIN_SECS ==> r == MIN_REFRESH_DELAY_SECS,
{
    if expires_in > REFRESH_MARGIN_SECS {
        expires_in - REFRESH_MARGIN_SECS
    } else {
        MIN_REFRESH_DELAY_SECS
    }
}

} // verus!
