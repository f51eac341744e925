//! The authorization URL builder: the provider's authorization endpoint
//! with the query parameters of one PKCE flow appended in a fixed order.
//!
//! The parameter list is built and pinned here; the URL syntax itself —
//! parsing the base and form-urlencoding the pairs into the query — is
//! the url crate's work, relied upon behind one trusted wrapper.

use vstd::prelude::*;
use crate::flow::AuthError;
use crate::provider::authorize_endpoint;
use crate::provider::authorize_endpoint_spec;
use crate::provider::client_id;
use crate::provider::client_id_spec;
use crate::provider::redirect_uri;
use crate::provider::redirect_uri_spec;
use crate::provider::scopes;
use crate::provider::scopes_spec;

verus! {

/// Whether the url crate parses this text as an absolute URL; parsing is
/// a pure function of the text.
pub uninterp spec fn url_parse_ok(s: Seq<char>) -> bool;

/// The serialization of a parsed base URL with the given pairs appended,
/// form-urlencoded and in order, to its query.
pub uninterp spec fn url_with_query_pairs(
    base: Seq<char>,
    pairs: Seq<(Seq<char>, Seq<char>)>,
) -> Seq<char>;

/// The views of a vector of query pairs.
pub open spec fn string_pairs_view(v: Seq<(String, String)>) -> Seq<(Seq<char>, Seq<char>)> {
    v.map_values(|p: (String, String)| (p.0@, p.1@))
}

/// Relies on url's `Url::parse` and `UrlQuery::append_pair`: parsing
/// succeeds on a well-formed absolute URL and is a pure function of the
/// text; appending serializes each pair into the query,
/// form-urlencoded, in the order given; the result is the serialized
/// URL.
#[verifier::external_body]
fn url_append_pairs(base: &str, pairs: &Vec<(String, String)>) -> (r: Option<String>)
    ensures
        r is Some <==> url_parse_ok(base@),
        r matches Some(u) ==> u@ == url_with_query_pairs(base@, string_pairs_view(pairs@)),
{
    match url::Url::parse(base) {
        Ok(mut u) => {
            {
                let mut q = u.query_pairs_mut();
                for (k, v) in pairs.iter() {
                    q.append_pair(k, v);
                }
            }
            Some(String::from(u))
        },
        Err(_) => None,
    }
}

/// The query parameters of one authorization request, in order: the
/// client identifier, the redirect URI, the code response type, the
/// scopes, the state value, the code challenge with its method, and the
/// parameter forcing explicit consent on every run.
pub open spec fn auth_pairs_spec(state: Seq<char>, challenge: Seq<char>) -> Seq<
    (Seq<char>, Seq<char>),
> {
    seq![
        ("client_id"@, client_id_spec()),
        ("redirect_uri"@, redirect_uri_spec()),
        ("response_type"@, "code"@),
        ("scope"@, scopes_spec()),
        ("state"@, state),
        ("code_challenge"@, challenge),
        ("code_challenge_method"@, "S256"@),
        ("prompt"@, "consent"@),
    ]
}

/// The authorization URL of one flow.
pub open spec fn auth_url_spec(state: Seq<char>, challenge: Seq<char>) -> Seq<char> {
    url_with_query_pairs(authorize_endpoint_spec(), auth_pairs_spec(state, challenge))
}

/// Builds the authorization URL for one flow's challenge and state. It
/// fails only if the fixed authorization endpoint text is malformed — a
/// programming error, not a runtime condition.
pub fn build_auth_url(code_challenge: &str, state: &str) -> (r: Result<String, AuthError>)
    ensures
        r is Ok <==> url_parse_ok(authorize_endpoint_spec()),
        r matches Ok(u) ==> u@ == auth_url_spec(state@, code_challenge@),
        r matches Err(e) ==> e == AuthError::InvalidAuthUrl,
{
    let mut pairs: Vec<(String, String)> = Vec::new();
    pairs.push((String::from_str("client_id"), String::from_str(client_id())));
    pairs.push((String::from_str("redirect_uri"), String::from_str(redirect_uri())));
    pairs.push((String::from_str("response_type"), String::from_str("code")));
    pairs.push((String::from_str("scope"), String::from_str(scopes())));
    pairs.push((String::from_str("state"), String::from_str(state)));
    pairs.push((String::from_str("code_challenge"), String::from_str(code_challenge)));
    pairs.push((String::from_str("code_challenge_method"), String::from_str("S256")));
    pairs.push((String::from_str("prompt"), String::from_str("consent")));
    proof {
        assert(string_pairs_view(pairs@) =~= auth_pairs_spec(state@, code_challenge@));
    }
    match url_append_pairs(authorize_endpoint(), &pairs) {
        Some(u) => Ok(u),
        None => Err(AuthError::InvalidAuthUrl),
    }
}

} // verus!
