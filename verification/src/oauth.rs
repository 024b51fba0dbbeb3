//! The OAuth exchanges as pure request builders: the authorization URL, the
//! token-endpoint form bodies, and the upstream request pieces. The network
//! calls themselves happen outside the library; callers send what these
//! functions build and hand the response bodies back.

use vstd::prelude::*;

verus! {

/// A client identifier with an optional secret, used for HTTP Basic
/// authentication against the provider and as the client id in
/// authorization URLs.
#[derive(Debug, Clone)]
pub struct Credentials {
    pub username: String,
    pub password: Option<String>,
}

/// The two query parameters an authorization callback carries on success.
#[derive(Debug, Clone)]
pub struct AuthReqResponse {
    pub code: String,
    pub state: String,
}

/// Splits a credential file's content at the first colon: user and secret,
/// the secret with surrounding ASCII whitespace removed; without a colon the
/// whole content is the user and there is no secret.
pub fn parse_credentials(content: &str) -> (r: Credentials)
    ensures
        ({
            let i = crate::text::first_sep(content@, ':');
            if i < content@.len() {
                &&& r.username@ == content@.take(i)
                &&& r.password matches Some(p) && p@ == crate::text::trim_spec(
                    content@.skip(i + 1),
                )
            } else {
                &&& r.username@ == content@
                &&& r.password is None
            }
        }),
{
    proof {
        crate::text::lemma_first_sep(content@, ':');
    }
    match crate::text::find_char(content, ':') {
        Some(i) => {
            let n = content.unicode_len();
            let user = content.substring_char(0, i);
            let secret = content.substring_char(i + 1, n);
            proof {
                assert(user@ =~= content@.take(i as int));
                assert(secret@ =~= content@.skip(i as int + 1));
            }
            Credentials { username: user.to_owned(), password: Some(crate::text::trim(secret)) }
        },
        None => Credentials { username: content.to_owned(), password: None },
    }
}

/// The views of a sequence of string slices.
pub open spec fn strs_view(ss: Seq<&str>) -> Seq<Seq<char>> {
    ss.map_values(|s: &str| s@)
}

/// The scopes as views, where given.
pub open spec fn scopes_view(scopes: Option<Vec<&str>>) -> Option<Seq<Seq<char>>> {
    match scopes {
        Some(v) => Some(strs_view(v@)),
        None => None,
    }
}

/// The space-joined list of scopes.
pub open spec fn join_spaces(ss: Seq<Seq<char>>) -> Seq<char>
    decreases ss.len(),
{
    if ss.len() == 0 {
        Seq::empty()
    } else if ss.len() == 1 {
        ss[0]
    } else {
        ss[0] + seq![' '] + join_spaces(ss.drop_first())
    }
}

/// The provider's authorization-endpoint URL with its query parameters, in
/// this fixed order (deterministic, so that it can be tested): client_id,
/// response_type, redirect_uri, then scope if scopes were given and non-empty.
pub open spec fn authorization_url_spec(
    client_id: Seq<char>,
    scopes: Option<Seq<Seq<char>>>,
    redirect: Seq<char>,
) -> Seq<char> {
    let base = "https://accounts.spotify.com/"@ + "authorize"@ + "?"@ + "client_id="@ + client_id
        + "&response_type=code"@ + "&redirect_uri="@ + redirect;
    match scopes {
        Some(ss) => if ss.len() > 0 {
            base + "&scope="@ + join_spaces(ss)
        } else {
            base
        },
        None => base,
    }
}

fn join_scopes_from(scopes: &Vec<&str>, start: usize) -> (r: String)
    requires
        start <= scopes@.len(),
    ensures
        r@ == join_spaces(strs_view(scopes@).skip(start as int)),
    decreases scopes@.len() - start,
{
    let n = scopes.len();
    if start == n {
        proof {
            assert(strs_view(scopes@).skip(start as int) =~= Seq::<Seq<char>>::empty());
        }
        return String::new();
    }
    let mut out = String::new();
    out.append(scopes[start]);
    proof {
        assert(strs_view(scopes@).skip(start as int)[0] == scopes@[start as int]@);
    }
    if start + 1 == n {
        proof {
            assert(strs_view(scopes@).skip(start as int).len() == 1);
            assert(out@ =~= join_spaces(strs_view(scopes@).skip(start as int)));
        }
        return out;
    }
    out.push(' ');
    let rest = join_scopes_from(scopes, start + 1);
    out.append(rest.as_str());
    proof {
        assert(strs_view(scopes@).skip(start as int).drop_first() =~= strs_view(scopes@).skip(
            start as int + 1,
        ));
        assert(out@ =~= join_spaces(strs_view(scopes@).skip(start as int)));
    }
    out
}

/// Builds the authorization URL for the given client, scopes and redirect URI.
pub fn get_authorization_code(creds: Credentials, scopes: Option<Vec<&str>>, redirect: &str) -> (u:
    String)
    ensures
        u@ == authorization_url_spec(creds.username@, scopes_view(scopes), redirect@),
{
    let mut url = String::new();
    url.append("https://accounts.spotify.com/");
    url.append("authorize");
    url.append("?");
    url.append("client_id=");
    url.append(creds.username.as_str());
    url.append("&response_type=code");
    url.append("&redirect_uri=");
    url.append(redirect);
    match scopes {
        Some(list) => {
            if list.len() > 0 {
                url.append("&scope=");
                proof {
                    assert(strs_view(list@).skip(0) =~= strs_view(list@));
                }
                let joined = join_scopes_from(&list, 0);
                url.append(joined.as_str());
            }
        },
        None => {},
    }
    url
}

/// The token-endpoint URL: the accounts base joined with the token path.
pub fn token_endpoint_url() -> (u: String)
    ensures
        u@ == "https://accounts.spotify.com/"@ + "api/token"@,
{
    let mut url = String::new();
    url.append("https://accounts.spotify.com/");
    url.append("api/token");
    url
}

/// The URL of an upstream GET: the accounts base or the API base, joined with
/// the relative endpoint.
pub fn api_endpoint_url(accounts: bool, api_endpoint: &str) -> (u: String)
    ensures
        accounts ==> u@ == "https://accounts.spotify.com/"@ + api_endpoint@,
        !accounts ==> u@ == "https://api.spotify.com/v1/"@ + api_endpoint@,
{
    let mut url = String::new();
    if accounts {
        url.append("https://accounts.spotify.com/");
    } else {
        url.append("https://api.spotify.com/v1/");
    }
    url.append(api_endpoint);
    url
}

/// The Authorization header value for a bearer token.
pub fn bearer_header(api_key: &str) -> (h: String)
    ensures
        h@ == "Bearer "@ + api_key@,
{
    let mut h = String::new();
    h.append("Bearer ");
    h.append(api_key);
    h
}

/// The form of a token-endpoint POST: the grant type (refresh_token when
/// refreshing, authorization_code otherwise), the code or refresh token in
/// the code slot, and the redirect URI.
pub fn redeem_token_form(authorization_code: &str, redirect: &str, refresh: bool) -> (r: Vec<
    (String, String),
>)
    ensures
        r@.len() == 3,
        r@[0].0@ == "grant_type"@,
        refresh ==> r@[0].1@ == "refresh_token"@,
        !refresh ==> r@[0].1@ == "authorization_code"@,
        r@[1].0@ == "code"@ && r@[1].1@ == authorization_code@,
        r@[2].0@ == "redirect_uri"@ && r@[2].1@ == redirect@,
{
    let grant = if refresh {
        String::from_str("refresh_token")
    } else {
        String::from_str("authorization_code")
    };
    let mut form: Vec<(String, String)> = Vec::new();
    form.push((String::from_str("grant_type"), grant));
    form.push((String::from_str("code"), authorization_code.to_owned()));
    form.push((String::from_str("redirect_uri"), redirect.to_owned()));
    form
}

/// The form of a client-credentials POST.
pub fn client_credentials_form() -> (r: Vec<(String, String)>)
    ensures
        r@.len() == 1,
        r@[0].0@ == "grant_type"@ && r@[0].1@ == "client_credentials"@,
{
    let mut form: Vec<(String, String)> = Vec::new();
    form.push((String::from_str("grant_type"), String::from_str("client_credentials")));
    form
}

} // verus!
