//! The typed API session over the provider's GraphQL endpoint.
//!
//! A session binds exactly one credential — a flat API key or an OAuth
//! access token — and computes the `Authorization` header value for it.
//! The request envelopes (`{query, variables}`) are built here as exact
//! JSON text; the response envelope (`{data, errors}`) is interpreted
//! here: a non-empty `errors` list always takes precedence over any
//! partial `data`, absent `data` with no errors is an empty response.
//! The HTTP transport itself lives outside the crate.

use vstd::prelude::*;
use vstd::string::StringExecFns;
use vstd::string::StrSliceExecFns;
use vstd::string::StringSliceAdditionalSpecFns;
use crate::types::Issue;
use crate::types::User;
use crate::config::Config;
use crate::config::config_text_spec;
use crate::config::parse_config_model;
use crate::config::config_model;
use crate::config::lemma_config_round_trip;
use crate::encoding::escape_string;
use crate::encoding::append_escaped;
use crate::encoding::int_dec;
use crate::encoding::i32_to_decimal;

verus! {

// ---------------------------------------------------------------------
// Credentials and the authorization header
// ---------------------------------------------------------------------

/// Exactly one credential kind backs a session: a flat API key, or an
/// OAuth access token presented as a bearer credential.
#[derive(Debug, Clone, PartialEq, Eq)]
pub enum Credential {
    ApiKey { key: String },
    OAuth { access_token: String },
}

/// The `Authorization` header value a credential produces: the raw key
/// for an API key, `Bearer <token>` for an OAuth access token.
pub open spec fn header_value_spec(c: Credential) -> Seq<char> {
    match c {
        Credential::ApiKey { key } => key@,
        Credential::OAuth { access_token } => "Bearer "@ + access_token@,
    }
}

/// Whether a character may stand in an HTTP header value: visible
/// characters and the space, plus the horizontal tab. Characters at 128
/// and above encode to bytes at 128 and above, which the header rules
/// accept, so a character-level check is exact.
pub open spec fn valid_header_char(c: char) -> bool {
    (c as u32 >= 32 && c as u32 != 127) || c as u32 == 9
}

/// Whether a whole text may stand in an HTTP header value.
pub open spec fn valid_header_text(s: Seq<char>) -> bool {
    forall|i: int| 0 <= i < s.len() ==> valid_header_char(s[i])
}

/// Executable check of `valid_header_text`.
pub fn check_header_text(s: &str) -> (r: bool)
    ensures
        r == valid_header_text(s@),
{
    let n = s.unicode_len();
    let mut i: usize = 0;
    while i < n
        invariant
            n == s@.len(),
            i <= n,
            forall|j: int| 0 <= j < i ==> valid_header_char(s@[j]),
        decreases n - i,
    {
        let c = s.get_char(i);
        let v = c as u32;
        if !((v >= 32 && v != 127) || v == 9) {
            return false;
        }
        i = i + 1;
    }
    true
}

/// A credential that cannot be carried in an HTTP header (it holds a
/// control character), so no session can be built from it.
#[derive(Debug, Clone, PartialEq, Eq)]
pub struct InvalidCredential;

/// A session against the provider's API, bound to exactly one credential
/// for its lifetime; it holds no other state.
#[derive(Debug, Clone, PartialEq, Eq)]
pub struct LinearClient {
    pub credential: Credential,
}

/// The bearer prefix leaves header validity to the token itself.
proof fn lemma_bearer_header_valid(token: Seq<char>)
    ensures
        valid_header_text("Bearer "@ + token) <==> valid_header_text(token),
{
    reveal_strlit("Bearer ");
    let whole = "Bearer "@ + token;
    if valid_header_text(token) {
        assert forall|i: int| 0 <= i < whole.len() implies valid_header_char(whole[i]) by {
            if i >= 7 {
                assert(whole[i] == token[i - 7]);
            }
        }
    }
    if valid_header_text(whole) {
        assert forall|i: int| 0 <= i < token.len() implies valid_header_char(token[i]) by {
            assert(whole[i + 7] == token[i]);
        }
    }
}

impl LinearClient {
    /// Builds a session from a flat API key; fails exactly when the key
    /// cannot stand in an HTTP header.
    pub fn new(api_key: String) -> (r: Result<LinearClient, InvalidCredential>)
        ensures
            r is Ok <==> valid_header_text(header_value_spec(
                Credential::ApiKey { key: api_key },
            )),
            r matches Ok(c) ==> c.credential == (Credential::ApiKey { key: api_key }),
    {
        if check_header_text(api_key.as_str()) {
            Ok(LinearClient { credential: Credential::ApiKey { key: api_key } })
        } else {
            Err(InvalidCredential)
        }
    }

    /// Builds a session from an OAuth access token; fails exactly when
    /// the resulting bearer header cannot stand in an HTTP header.
    pub fn new_with_oauth(access_token: String) -> (r: Result<LinearClient, InvalidCredential>)
        ensures
            r is Ok <==> valid_header_text(header_value_spec(
                Credential::OAuth { access_token: access_token },
            )),
            r matches Ok(c) ==> c.credential == (Credential::OAuth {
                access_token: access_token,
            }),
    {
        proof {
            lemma_bearer_header_valid(access_token@);
        }
        if check_header_text(access_token.as_str()) {
            Ok(LinearClient { credential: Credential::OAuth { access_token: access_token } })
        } else {
            Err(InvalidCredential)
        }
    }

    /// The `Authorization` header value this session attaches to every
    /// outbound request.
    pub fn auth_header_value(&self) -> (r: String)
        ensures
            r@ == header_value_spec(self.credential),
    {
        match &self.credential {
            Credential::ApiKey { key } => key.clone(),
            Credential::OAuth { access_token } => {
                let mut s = String::from_str("Bearer ");
                s.append(access_token.as_str());
                s
            },
        }
    }
}

/// The credential a stored configuration yields, when it holds one: a
/// stored OAuth token takes precedence over a stored API key.
pub fn stored_credential(config: &Config) -> (r: Option<Credential>)
    ensures
        config.oauth_token matches Some(t) ==> r == Some(
            Credential::OAuth { access_token: t.access_token },
        ),
        config.oauth_token is None ==> (config.api_key matches Some(k) ==> r == Some(
            Credential::ApiKey { key: k },
        )),
        config.oauth_token is None && config.api_key is None ==> r is None,
{
    match &config.oauth_token {
        Some(t) => Some(Credential::OAuth { access_token: t.access_token.clone() }),
        None => match &config.api_key {
            Some(k) => Some(Credential::ApiKey { key: k.clone() }),
            None => None,
        },
    }
}

/// The user's answer to the credential-kind prompt.
#[derive(Debug, Clone, PartialEq, Eq)]
pub enum AuthChoice {
    /// Run the OAuth authorization flow.
    UseOAuth,
    /// Enter a flat API key by hand.
    UseApiKey,
    /// Anything else; the attempt is rejected.
    Invalid,
}

/// Classifies the (already trimmed) answer to the credential-kind
/// prompt: `1` is the OAuth flow, `2` the manual API key, and anything
/// else is invalid.
pub fn parse_auth_choice(s: &str) -> (r: AuthChoice)
    ensures
        s@ == "1"@ ==> r == AuthChoice::UseOAuth,
        s@ == "2"@ ==> r == AuthChoice::UseApiKey,
        s@ != "1"@ && s@ != "2"@ ==> r == AuthChoice::Invalid,
{
    proof {
        reveal_strlit("1");
        reveal_strlit("2");
    }
    let n = s.unicode_len();
    if n == 1 {
        let c = s.get_char(0);
        if c == '1' {
            proof {
                assert(s@ =~= "1"@);
            }
            return AuthChoice::UseOAuth;
        }
        if c == '2' {
            proof {
                assert(s@ =~= "2"@);
            }
            return AuthChoice::UseApiKey;
        }
    }
    AuthChoice::Invalid
}

/// Law: a configuration holding a token record, persisted through the
/// text format and reloaded, authenticates identically — a session
/// built from the reloaded record produces the very same authorization
/// header value as one built from the live record.
pub proof fn lemma_reloaded_token_same_header(c: Config, c2: Config)
    requires
        c.oauth_token is Some,
        parse_config_model(config_text_spec(c)) == Some(config_model(c2)),
    ensures
        c2.oauth_token is Some,
        header_value_spec(
            Credential::OAuth { access_token: c2.oauth_token.unwrap().access_token },
        ) == header_value_spec(
            Credential::OAuth { access_token: c.oauth_token.unwrap().access_token },
        ),
{
    lemma_config_round_trip(c);
}

// ---------------------------------------------------------------------
// Failures of an API call
// ---------------------------------------------------------------------

/// Why an API call failed.
#[derive(Debug, Clone, PartialEq, Eq)]
pub enum ApiError {
    /// A transport-level failure; no response envelope was obtained.
    NetworkError,
    /// The provider reported errors; the message joins their texts.
    GraphQLError { message: String },
    /// The envelope carried neither data nor errors.
    EmptyResponse,
    /// The response could not be read as an envelope at all.
    DeserializationError,
}

// ---------------------------------------------------------------------
// Response envelopes
// ---------------------------------------------------------------------

/// One edge of the issue connection.
#[derive(Debug, Clone, PartialEq, Eq)]
pub struct IssueEdge {
    pub node: Issue,
    pub cursor: Option<String>,
}

/// The single fetched page of the issue connection. Only this one page
/// is ever fetched; a `limit` beyond the page is silently not followed
/// up (a documented limitation of this core).
#[derive(Debug, Clone, PartialEq, Eq)]
pub struct IssueConnection {
    pub edges: Vec<IssueEdge>,
}

/// The response envelope of the issue-list query.
#[derive(Debug, Clone, PartialEq, Eq)]
pub struct IssuesEnvelope {
    pub data: Option<IssueConnection>,
    pub errors: Option<Vec<String>>,
}

/// The response envelope of the identity query.
#[derive(Debug, Clone, PartialEq, Eq)]
pub struct ViewerEnvelope {
    pub data: Option<User>,
    pub errors: Option<Vec<String>>,
}

/// The provider's error texts, joined with a comma and a space.
pub open spec fn join_messages(msgs: Seq<Seq<char>>) -> Seq<char>
    decreases msgs.len(),
{
    if msgs.len() == 0 {
        Seq::empty()
    } else if msgs.len() == 1 {
        msgs[0]
    } else {
        msgs[0] + ", "@ + join_messages(msgs.skip(1))
    }
}

/// Joining after appending one more message appends a separator and the
/// message (no separator when it is the first).
proof fn lemma_join_push(msgs: Seq<Seq<char>>, x: Seq<char>)
    ensures
        msgs.len() == 0 ==> join_messages(msgs.push(x)) == x,
        msgs.len() > 0 ==> join_messages(msgs.push(x)) == join_messages(msgs) + ", "@ + x,
    decreases msgs.len(),
{
    if msgs.len() == 0 {
        assert(msgs.push(x)[0] == x);
    } else {
        lemma_join_push(msgs.skip(1), x);
        assert(msgs.push(x).skip(1) =~= msgs.skip(1).push(x));
        assert(msgs.push(x)[0] == msgs[0]);
        if msgs.len() == 1 {
            assert(msgs.skip(1).len() == 0);
            assert(join_messages(msgs.push(x)) == msgs[0] + ", "@ + x);
        } else {
            assert(join_messages(msgs.push(x)) == msgs[0] + ", "@ + (join_messages(
                msgs.skip(1),
            ) + ", "@ + x));
            assert(msgs[0] + ", "@ + (join_messages(msgs.skip(1)) + ", "@ + x) =~= (msgs[0]
                + ", "@ + join_messages(msgs.skip(1))) + ", "@ + x);
        }
    }
}

/// The views of a vector of message strings.
pub open spec fn messages_view(msgs: Seq<String>) -> Seq<Seq<char>> {
    msgs.map_values(|s: String| s@)
}

/// Joins the provider's error texts with a comma and a space.
pub fn join_error_messages(errs: &Vec<String>) -> (r: String)
    ensures
        r@ == join_messages(messages_view(errs@)),
{
    let ghost views = messages_view(errs@);
    let mut out = String::new();
    let mut i: usize = 0;
    proof {
        assert(views.take(0) =~= Seq::<Seq<char>>::empty());
    }
    while i < errs.len()
        invariant
            i <= errs@.len(),
            views == messages_view(errs@),
            out@ == join_messages(views.take(i as int)),
        decreases errs@.len() - i,
    {
        proof {
            lemma_join_push(views.take(i as int), views[i as int]);
            assert(views.take(i as int + 1) =~= views.take(i as int).push(views[i as int]));
        }
        if i > 0 {
            out.append(", ");
        }
        out.append(errs[i].as_str());
        i = i + 1;
    }
    proof {
        assert(views.take(errs@.len() as int) =~= views);
    }
    out
}

/// Whether an envelope's error list is present and non-empty.
pub open spec fn has_errors(errors: Option<Vec<String>>) -> bool {
    errors matches Some(e) && e@.len() > 0
}

/// The nodes of the fetched edges, in order.
pub open spec fn edge_nodes(edges: Seq<IssueEdge>) -> Seq<Issue> {
    edges.map_values(|e: IssueEdge| e.node)
}

/// Unwraps the fetched edges into their issue nodes, in order.
fn collect_nodes(conn: IssueConnection) -> (r: Vec<Issue>)
    ensures
        r@ == edge_nodes(conn.edges@),
{
    let ghost orig = conn.edges@;
    let mut edges = conn.edges;
    let mut out: Vec<Issue> = Vec::new();
    proof {
        assert(out@ + edge_nodes(edges@) =~= edge_nodes(orig));
    }
    while edges.len() > 0
        invariant
            out@ + edge_nodes(edges@) == edge_nodes(orig),
        decreases edges@.len(),
    {
        let ghost before = edges@;
        let ghost done = out@;
        let e = edges.remove(0);
        out.push(e.node);
        proof {
            assert(edge_nodes(before)[0] == e.node);
            assert(edge_nodes(before).skip(1) =~= edge_nodes(edges@));
            assert(out@ + edge_nodes(edges@) =~= (done + edge_nodes(before)));
        }
    }
    proof {
        assert(edge_nodes(edges@) =~= Seq::<Issue>::empty());
        assert(out@ =~= out@ + edge_nodes(edges@));
    }
    out
}

// ---------------------------------------------------------------------
// The two session operations, on the response envelope
// ---------------------------------------------------------------------

/// Interprets the issue-list response envelope: a non-empty `errors`
/// list takes precedence over any partial `data` and surfaces as
/// `GraphQLError`; absent `data` with no errors is `EmptyResponse`;
/// otherwise the edges' nodes are returned in order.
pub fn list_issues(env: IssuesEnvelope) -> (r: Result<Vec<Issue>, ApiError>)
    ensures
        env.errors matches Some(errs) ==> (errs@.len() > 0 ==> (r matches Err(a) && (
        a matches ApiError::GraphQLError { message } && message@ == join_messages(
            messages_view(errs@),
        )))),
        !has_errors(env.errors) && env.data is None ==> r == Err::<Vec<Issue>, ApiError>(
            ApiError::EmptyResponse,
        ),
        env.data matches Some(conn) ==> (!has_errors(env.errors) ==> (r matches Ok(v) && v@
            == edge_nodes(conn.edges@))),
{
    if let Some(errs) = env.errors {
        if errs.len() > 0 {
            let message = join_error_messages(&errs);
            return Err(ApiError::GraphQLError { message });
        }
        match env.data {
            Some(conn) => Ok(collect_nodes(conn)),
            None => Err(ApiError::EmptyResponse),
        }
    } else {
        match env.data {
            Some(conn) => Ok(collect_nodes(conn)),
            None => Err(ApiError::EmptyResponse),
        }
    }
}

/// Interprets the identity response envelope, with the same precedence
/// rules as the issue list: errors first, then absent data, then the
/// user object.
pub fn verify_identity(env: ViewerEnvelope) -> (r: Result<User, ApiError>)
    ensures
        env.errors matches Some(errs) ==> (errs@.len() > 0 ==> (r matches Err(a) && (
        a matches ApiError::GraphQLError { message } && message@ == join_messages(
            messages_view(errs@),
        )))),
        !has_errors(env.errors) && env.data is None ==> r == Err::<User, ApiError>(
            ApiError::EmptyResponse,
        ),
        env.data matches Some(user) ==> (!has_errors(env.errors) ==> r == Ok::<User, ApiError>(
            user,
        )),
{
    if let Some(errs) = env.errors {
        if errs.len() > 0 {
            let message = join_error_messages(&errs);
            return Err(ApiError::GraphQLError { message });
        }
        match env.data {
            Some(user) => Ok(user),
            None => Err(ApiError::EmptyResponse),
        }
    } else {
        match env.data {
            Some(user) => Ok(user),
            None => Err(ApiError::EmptyResponse),
        }
    }
}

// ---------------------------------------------------------------------
// Request envelopes
// ---------------------------------------------------------------------

/// The issue-list query text.
pub open spec fn issues_query_spec() -> Seq<char> {
    "query GetIssues($first: Int!) { issues(first: $first) { edges { node { id identifier title description priority createdAt updatedAt state { id name color } assignee { id name email } } } } }"@
}

/// The issue-list query text.
pub fn issues_query() -> (r: &'static str)
    ensures
        r@ == issues_query_spec(),
{
    "query GetIssues($first: Int!) { issues(first: $first) { edges { node { id identifier title description priority createdAt updatedAt state { id name color } assignee { id name email } } } } }"
}

/// The identity query text.
pub open spec fn viewer_query_spec() -> Seq<char> {
    "query GetViewer { viewer { id name email } }"@
}

/// The identity query text.
pub fn viewer_query() -> (r: &'static str)
    ensures
        r@ == viewer_query_spec(),
{
    "query GetViewer { viewer { id name email } }"
}

/// The JSON request envelope of the issue-list call: the query and the
/// page size as the `first` variable.
pub open spec fn issues_request_body_spec(limit: int) -> Seq<char> {
    "{\"query\":\""@ + escape_string(issues_query_spec()) + "\",\"variables\":{\"first\":"@
        + int_dec(limit) + "}}"@
}

/// Builds the JSON request envelope of the issue-list call.
pub fn issues_request_body(limit: i32) -> (r: String)
    ensures
        r@ == issues_request_body_spec(limit as int),
{
    let mut out = String::from_str("{\"query\":\"");
    append_escaped(&mut out, issues_query());
    out.append("\",\"variables\":{\"first\":");
    let digits = i32_to_decimal(limit);
    out.append(digits.as_str());
    out.append("}}");
    out
}

/// The JSON request envelope of the identity call: the query and null
/// variables.
pub open spec fn viewer_request_body_spec() -> Seq<char> {
    "{\"query\":\""@ + escape_string(viewer_query_spec()) + "\",\"variables\":null}"@
}

/// Builds the JSON request envelope of the identity call.
pub fn viewer_request_body() -> (r: String)
    ensures
        r@ == viewer_request_body_spec(),
{
    let mut out = String::from_str("{\"query\":\"");
    append_escaped(&mut out, viewer_query());
    out.append("\",\"variables\":null}");
    out
}

} // verus!
