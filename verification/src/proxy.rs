//! The request-proxy pipeline: interpreting the upstream response's status
//! and projecting the configured JSON field path out of a successful body.
//! The upstream GET itself runs outside the library; its outcome comes in as
//! an `UpstreamResult`.

use vstd::prelude::*;

use crate::json::{
    extract_spec, json_doc_of, parse_json, path_view, retrieve_json_value, scalar_text,
    scalar_to_text,
};
use crate::text::{strings_view, strip_quotes_spec};

verus! {

/// What a call to the upstream yielded: a transport-level failure (connection
/// refused, timeout), told apart from any received response, or the response
/// with its status code and body text.
#[derive(Debug, Clone, PartialEq)]
pub enum UpstreamResult {
    TransportError,
    Response { status: u16, body: String },
}

/// What the proxy answers a caller: a status code and, on success, the
/// extracted value as plain text.
#[derive(Debug, Clone, PartialEq)]
pub struct ProxyResponse {
    pub status: u16,
    pub body: Option<String>,
}

/// The view of an upstream outcome.
pub open spec fn upstream_view(r: UpstreamResult) -> Option<(u16, Seq<char>)> {
    match r {
        UpstreamResult::TransportError => None,
        UpstreamResult::Response { status, body } => Some((status, body@)),
    }
}

/// What the proxy answers, by upstream outcome: a transport failure is a 502;
/// a 204 is forwarded verbatim with no body; a 200 has the configured path
/// extracted from its JSON body and yields that value's plain text with
/// wrapping quotes stripped, or a 404 when the path is not present, or a 500
/// when the body is not JSON; every other status is answered with a plain 500,
/// leaking nothing of the upstream body.
pub open spec fn proxy_spec(upstream: Option<(u16, Seq<char>)>, path: Seq<Seq<char>>) -> (
    u16,
    Option<Seq<char>>,
) {
    match upstream {
        None => (502u16, None),
        Some((status, body)) => {
            if status == 204 {
                (204u16, None)
            } else if status == 200 {
                match json_doc_of(body) {
                    None => (500u16, None),
                    Some(doc) => match extract_spec(doc, path) {
                        Some(node) => (200u16, Some(strip_quotes_spec(scalar_text(node)))),
                        None => (404u16, None),
                    },
                }
            } else {
                (500u16, None)
            }
        },
    }
}

fn str_refs<'a>(v: &'a Vec<String>) -> (r: Vec<&'a str>)
    ensures
        path_view(r@) == strings_view(v@),
{
    let n = v.len();
    let mut out: Vec<&str> = Vec::new();
    let mut i: usize = 0;
    while i < n
        invariant
            0 <= i <= n,
            n == v@.len(),
            out@.len() == i,
            forall|j: int| 0 <= j < i ==> (#[trigger] out@[j])@ == v@[j]@,
        decreases n - i,
    {
        out.push(v[i].as_str());
        i += 1;
    }
    proof {
        assert(path_view(out@) =~= strings_view(v@));
    }
    out
}

/// Whether a configured target selects the accounts base rather than the API
/// base for the upstream call.
pub fn use_accounts_base(target: &str) -> (r: bool)
    ensures
        r == (target@ == "accounts"@),
{
    crate::json::str_eq(target, "accounts")
}

/// Answers one proxied request from the upstream outcome and the configured
/// extraction path, as `proxy_spec` says.
pub fn handle_api_response(resp: &UpstreamResult, extract_path: &Vec<String>) -> (r: ProxyResponse)
    ensures
        ({
            let expected = proxy_spec(upstream_view(*resp), strings_view(extract_path@));
            &&& r.status == expected.0
            &&& match r.body {
                Some(b) => expected.1 == Some(b@),
                None => expected.1 is None,
            }
        }),
{
    match resp {
        UpstreamResult::TransportError => ProxyResponse { status: 502, body: None },
        UpstreamResult::Response { status, body } => {
            if *status == 204 {
                ProxyResponse { status: 204, body: None }
            } else if *status == 200 {
                match parse_json(body.as_str()) {
                    None => ProxyResponse { status: 500, body: None },
                    Some(doc) => {
                        let path = str_refs(extract_path);
                        match retrieve_json_value(&doc, path.as_slice()) {
                            Some(node) => {
                                let text = scalar_to_text(node);
                                let rendered = crate::text::strip_quotes(&text);
                                ProxyResponse { status: 200, body: Some(rendered) }
                            },
                            None => ProxyResponse { status: 404, body: None },
                        }
                    },
                }
            } else {
                ProxyResponse { status: 500, body: None }
            }
        },
    }
}

} // verus!
