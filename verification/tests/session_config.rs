use linear_tui::config::encode_config;
use linear_tui::config::parse_config;
use linear_tui::config::Config;
use linear_tui::config::OAuthToken;
use linear_tui::session::issues_request_body;
use linear_tui::session::list_issues;
use linear_tui::session::parse_auth_choice;
use linear_tui::session::stored_credential;
use linear_tui::session::verify_identity;
use linear_tui::session::viewer_request_body;
use linear_tui::session::ApiError;
use linear_tui::session::AuthChoice;
use linear_tui::session::Credential;
use linear_tui::session::IssueConnection;
use linear_tui::session::IssueEdge;
use linear_tui::session::IssuesEnvelope;
use linear_tui::session::LinearClient;
use linear_tui::session::ViewerEnvelope;
use linear_tui::types::Issue;
use linear_tui::types::IssueState;
use linear_tui::types::User;

fn sample_issue(id: &str, title: &str) -> Issue {
    Issue {
        id: id.to_string(),
        identifier: format!("ENG-{}", id),
        title: title.to_string(),
        description: None,
        state: IssueState {
            id: "st1".to_string(),
            name: "Todo".to_string(),
            color: "#888888".to_string(),
        },
        priority: 2,
        assignee: None,
        created_at: "2024-01-01T00:00:00Z".to_string(),
        updated_at: "2024-01-02T00:00:00Z".to_string(),
    }
}

#[test]
fn errors_take_precedence_over_data() {
    let env = IssuesEnvelope {
        data: Some(IssueConnection {
            edges: vec![IssueEdge { node: sample_issue("1", "ignored"), cursor: None }],
        }),
        errors: Some(vec!["first failure".to_string(), "second failure".to_string()]),
    };
    let r = list_issues(env);
    assert_eq!(
        r,
        Err(ApiError::GraphQLError { message: "first failure, second failure".to_string() })
    );
}

#[test]
fn absent_data_and_errors_is_an_empty_response() {
    let env = IssuesEnvelope { data: None, errors: None };
    assert_eq!(list_issues(env), Err(ApiError::EmptyResponse));
}

#[test]
fn an_empty_error_list_does_not_mask_data() {
    let env = IssuesEnvelope {
        data: Some(IssueConnection {
            edges: vec![IssueEdge { node: sample_issue("7", "kept"), cursor: None }],
        }),
        errors: Some(vec![]),
    };
    let r = list_issues(env).unwrap();
    assert_eq!(r.len(), 1);
    assert_eq!(r[0].title, "kept");
}

#[test]
fn issues_come_back_in_edge_order() {
    let env = IssuesEnvelope {
        data: Some(IssueConnection {
            edges: vec![
                IssueEdge { node: sample_issue("1", "first"), cursor: None },
                IssueEdge { node: sample_issue("2", "second"), cursor: Some("c2".to_string()) },
                IssueEdge { node: sample_issue("3", "third"), cursor: None },
            ],
        }),
        errors: None,
    };
    let r = list_issues(env).unwrap();
    let titles: Vec<&str> = r.iter().map(|i| i.title.as_str()).collect();
    assert_eq!(titles, vec!["first", "second", "third"]);
}

#[test]
fn viewer_envelope_follows_the_same_rules() {
    let user = User {
        id: "u1".to_string(),
        name: "Sam".to_string(),
        email: "sam@example.com".to_string(),
    };
    let ok = ViewerEnvelope { data: Some(user.clone()), errors: None };
    assert_eq!(verify_identity(ok), Ok(user.clone()));
    let err = ViewerEnvelope {
        data: Some(user),
        errors: Some(vec!["not authenticated".to_string()]),
    };
    assert_eq!(
        verify_identity(err),
        Err(ApiError::GraphQLError { message: "not authenticated".to_string() })
    );
    let empty = ViewerEnvelope { data: None, errors: None };
    assert_eq!(verify_identity(empty), Err(ApiError::EmptyResponse));
}

#[test]
fn api_key_header_is_the_raw_key() {
    let c = LinearClient::new("lin_api_key_123".to_string()).unwrap();
    assert_eq!(c.auth_header_value(), "lin_api_key_123");
}

#[test]
fn oauth_header_is_a_bearer_credential() {
    let c = LinearClient::new_with_oauth("tok_x".to_string()).unwrap();
    assert_eq!(c.auth_header_value(), "Bearer tok_x");
}

#[test]
fn control_characters_cannot_form_a_credential() {
    assert!(LinearClient::new("bad\nkey".to_string()).is_err());
    assert!(LinearClient::new_with_oauth("bad\u{0}token".to_string()).is_err());
    assert!(LinearClient::new("tab\tis fine".to_string()).is_ok());
}

#[test]
fn issues_request_body_is_exact() {
    let body = issues_request_body(50);
    assert_eq!(
        body,
        "{\"query\":\"query GetIssues($first: Int!) { issues(first: $first) { edges { node { \
         id identifier title description priority createdAt updatedAt state { id name color } \
         assignee { id name email } } } } }\",\"variables\":{\"first\":50}}"
    );
    // The body is well-formed JSON with the page size in place.
    let v: serde_json::Value = serde_json::from_str(&body).unwrap();
    assert_eq!(v["variables"]["first"], serde_json::Value::from(50));
}

#[test]
fn viewer_request_body_is_exact() {
    let body = viewer_request_body();
    assert_eq!(
        body,
        "{\"query\":\"query GetViewer { viewer { id name email } }\",\"variables\":null}"
    );
    let v: serde_json::Value = serde_json::from_str(&body).unwrap();
    assert!(v["variables"].is_null());
}

#[test]
fn config_round_trips_through_the_persisted_text() {
    let mut config = Config { api_key: None, oauth_token: None };
    config.set_api_key("lin_api_key".to_string());
    config.set_oauth_token(OAuthToken {
        access_token: "tok_x".to_string(),
        token_type: "Bearer".to_string(),
        scope: "read write".to_string(),
    });
    let text = encode_config(&config);
    let reloaded = parse_config(&text).unwrap();
    assert_eq!(reloaded, config);
}

#[test]
fn reloaded_token_authenticates_identically() {
    let token = OAuthToken {
        access_token: "tok_reload".to_string(),
        token_type: "Bearer".to_string(),
        scope: "read".to_string(),
    };
    let live = LinearClient::new_with_oauth(token.access_token.clone()).unwrap();
    let config = Config { api_key: None, oauth_token: Some(token) };
    let reloaded = parse_config(&encode_config(&config)).unwrap();
    let restored =
        LinearClient::new_with_oauth(reloaded.oauth_token.unwrap().access_token).unwrap();
    assert_eq!(live.auth_header_value(), restored.auth_header_value());
}

#[test]
fn awkward_values_survive_the_codec() {
    let config = Config {
        api_key: Some("quote \" backslash \\ newline \n tab \t bell \u{7} end".to_string()),
        oauth_token: Some(OAuthToken {
            access_token: "del \u{7f} unicode \u{e9}\u{4e2d}".to_string(),
            token_type: "".to_string(),
            scope: "a=b&c".to_string(),
        }),
    };
    let reloaded = parse_config(&encode_config(&config)).unwrap();
    assert_eq!(reloaded, config);
}

#[test]
fn empty_config_encodes_to_empty_text() {
    let config = Config { api_key: None, oauth_token: None };
    let text = encode_config(&config);
    assert_eq!(text, "");
    assert_eq!(parse_config(&text).unwrap(), config);
}

#[test]
fn malformed_config_text_is_rejected() {
    assert_eq!(parse_config("api_key = \"unterminated"), None);
    assert_eq!(parse_config("garbage"), None);
    assert_eq!(parse_config("[oauth_token]\naccess_token = \"a\"\n"), None);
}

#[test]
fn stored_oauth_token_takes_precedence() {
    let config = Config {
        api_key: Some("key".to_string()),
        oauth_token: Some(OAuthToken {
            access_token: "tok".to_string(),
            token_type: "Bearer".to_string(),
            scope: "read".to_string(),
        }),
    };
    assert_eq!(
        stored_credential(&config),
        Some(Credential::OAuth { access_token: "tok".to_string() })
    );
    let key_only = Config { api_key: Some("key".to_string()), oauth_token: None };
    assert_eq!(
        stored_credential(&key_only),
        Some(Credential::ApiKey { key: "key".to_string() })
    );
    let empty = Config { api_key: None, oauth_token: None };
    assert_eq!(stored_credential(&empty), None);
}

#[test]
fn auth_choice_classification() {
    assert_eq!(parse_auth_choice("1"), AuthChoice::UseOAuth);
    assert_eq!(parse_auth_choice("2"), AuthChoice::UseApiKey);
    assert_eq!(parse_auth_choice("3"), AuthChoice::Invalid);
    assert_eq!(parse_auth_choice(""), AuthChoice::Invalid);
    assert_eq!(parse_auth_choice("12"), AuthChoice::Invalid);
}
