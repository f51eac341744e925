//! The token exchange: the JSON body of the
//! authorization-code-for-access-token request, and the mapping of the
//! provider's response to a token record or a typed failure.
//!
//! The POST itself is transport and lives outside the crate; a transport
//! failure maps to `NetworkError` there. This module builds the exact
//! request body and decides what a received response means.

use vstd::prelude::*;
use vstd::string::StringExecFns;
use vstd::string::StrSliceExecFns;
use crate::config::OAuthToken;
use crate::flow::AuthError;
use crate::provider::client_id;
use crate::provider::client_id_spec;
use crate::provider::redirect_uri;
use crate::provider::redirect_uri_spec;
use crate::encoding::escape_string;
use crate::encoding::append_escaped;

verus! {

/// The JSON body of the token exchange request: the code, the redirect
/// URI, the client identifier, the code verifier of this very flow, and
/// the fixed grant type.
pub open spec fn token_request_body_spec(code: Seq<char>, verifier: Seq<char>) -> Seq<char> {
    "{\"code\":\""@ + escape_string(code) + "\",\"redirect_uri\":\""@ + escape_string(
        redirect_uri_spec(),
    ) + "\",\"client_id\":\""@ + escape_string(client_id_spec()) + "\",\"code_verifier\":\""@
        + escape_string(verifier) + "\",\"grant_type\":\"authorization_code\"}"@
}

/// Builds the JSON body of the token exchange request. The verifier
/// handed in must be the one generated at the start of the same flow;
/// the orchestrator's transition contract guarantees that pairing.
pub fn token_request_body(code: &str, code_verifier: &str) -> (r: String)
    ensures
        r@ == token_request_body_spec(code@, code_verifier@),
{
    let mut out = String::from_str("{\"code\":\"");
    append_escaped(&mut out, code);
    out.append("\",\"redirect_uri\":\"");
    append_escaped(&mut out, redirect_uri());
    out.append("\",\"client_id\":\"");
    append_escaped(&mut out, client_id());
    out.append("\",\"code_verifier\":\"");
    append_escaped(&mut out, code_verifier);
    out.append("\",\"grant_type\":\"authorization_code\"}");
    out
}

/// How many characters of a provider error body are kept when it is
/// surfaced, so that a long or sensitive body is not carried around in
/// full.
pub open spec fn provider_message_limit() -> int {
    500
}

/// A provider response body, cut down to the surfaced length.
pub open spec fn truncated_message(s: Seq<char>) -> Seq<char> {
    if s.len() <= provider_message_limit() {
        s
    } else {
        s.take(provider_message_limit())
    }
}

/// Decides what the token endpoint's response means: a non-success
/// status is a provider error carrying the (truncated) body text; a
/// success status whose body parsed into a record yields that record; a
/// success status whose body did not parse is a provider error as well.
pub fn interpret_token_response(status_success: bool, parsed: Option<OAuthToken>, body: &str)
    -> (r: Result<OAuthToken, AuthError>)
    ensures
        !status_success ==> (r matches Err(e) && (e matches AuthError::ProviderError { message }
            && message@ == truncated_message(body@))),
        status_success ==> (parsed matches Some(t) ==> r == Ok::<OAuthToken, AuthError>(t)),
        status_success && parsed is None ==> (r matches Err(e) && (e matches
            AuthError::ProviderError { message } && message@
            == "token response could not be parsed"@)),
{
    if !status_success {
        let n = body.unicode_len();
        let message = if n > 500 {
            String::from_str(body.substring_char(0, 500))
        } else {
            String::from_str(body)
        };
        return Err(AuthError::ProviderError { message });
    }
    match parsed {
        Some(t) => Ok(t),
        None => Err(
            AuthError::ProviderError {
                message: String::from_str("token response could not be parsed"),
            },
        ),
    }
}

} // verus!
