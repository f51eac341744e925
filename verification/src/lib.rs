//! Authentication and API-session core for a terminal client of an
//! issue-tracking service.
//!
//! The library covers the OAuth 2.0 Authorization Code flow with PKCE:
//! generation of the code verifier, code challenge and anti-CSRF state,
//! construction of the authorization URL, parsing and validation of the
//! local redirect callback, the orchestrator state machine, the token
//! exchange request and response handling, and the typed GraphQL session
//! (request envelopes, response envelope interpretation, error surfacing).
//! All I/O (network, terminal, file system) lives outside this crate; the
//! functions here compute over plain values and carry contracts.

pub mod types;
pub mod config;
pub mod encoding;
pub mod crypto;
pub mod callback;
pub mod flow;
pub mod provider;
pub mod session;
pub mod token;
pub mod authurl;
pub mod browser;
