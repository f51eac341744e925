//! The static provider parameters: client identifier, endpoints, redirect
//! address and scopes. They are fixed for this tool; every function pins
//! its value exactly, so the contracts elsewhere can speak of them.

use vstd::prelude::*;

verus! {

/// The OAuth client identifier of this tool.
pub open spec fn client_id_spec() -> Seq<char> {
    "linear-tui"@
}

/// The OAuth client identifier of this tool.
pub fn client_id() -> (r: &'static str)
    ensures
        r@ == client_id_spec(),
{
    "linear-tui"
}

/// The redirect URI registered for the local callback listener.
pub open spec fn redirect_uri_spec() -> Seq<char> {
    "http://localhost:8989/callback"@
}

/// The redirect URI registered for the local callback listener.
pub fn redirect_uri() -> (r: &'static str)
    ensures
        r@ == redirect_uri_spec(),
{
    "http://localhost:8989/callback"
}

/// The local port the callback listener binds.
pub fn redirect_port() -> (r: u16)
    ensures
        r == 8989,
{
    8989
}

/// The provider's authorization endpoint.
pub open spec fn authorize_endpoint_spec() -> Seq<char> {
    "https://linear.app/oauth/authorize"@
}

/// The provider's authorization endpoint.
pub fn authorize_endpoint() -> (r: &'static str)
    ensures
        r@ == authorize_endpoint_spec(),
{
    "https://linear.app/oauth/authorize"
}

/// The provider's token endpoint.
pub open spec fn token_endpoint_spec() -> Seq<char> {
    "https://api.linear.app/oauth/token"@
}

/// The provider's token endpoint.
pub fn token_endpoint() -> (r: &'static str)
    ensures
        r@ == token_endpoint_spec(),
{
    "https://api.linear.app/oauth/token"
}

/// The provider's GraphQL endpoint.
pub open spec fn graphql_endpoint_spec() -> Seq<char> {
    "https://api.linear.app/graphql"@
}

/// The provider's GraphQL endpoint.
pub fn graphql_endpoint() -> (r: &'static str)
    ensures
        r@ == graphql_endpoint_spec(),
{
    "https://api.linear.app/graphql"
}

/// The scopes requested during authorization, space-joined.
pub open spec fn scopes_spec() -> Seq<char> {
    "read write issues:create comments:create"@
}

/// The scopes requested during authorization, space-joined.
pub fn scopes() -> (r: &'static str)
    ensures
        r@ == scopes_spec(),
{
    "read write issues:create comments:create"
}

} // verus!
