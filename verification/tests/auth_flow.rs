use linear_tui::callback::handle_callback_request;
use linear_tui::callback::CallbackOutcome;
use linear_tui::crypto::generate_code_challenge;
use linear_tui::crypto::generate_code_verifier;
use linear_tui::crypto::generate_state;
use linear_tui::authurl::build_auth_url;
use linear_tui::flow::flow_step;
use linear_tui::flow::AuthError;
use linear_tui::flow::FlowAction;
use linear_tui::flow::FlowEvent;
use linear_tui::flow::FlowState;
use linear_tui::token::interpret_token_response;
use linear_tui::token::token_request_body;
use linear_tui::config::OAuthToken;

#[test]
fn challenge_is_deterministic() {
    let c1 = generate_code_challenge("test-verifier-value");
    let c2 = generate_code_challenge("test-verifier-value");
    assert_eq!(c1, c2);
}

#[test]
fn challenge_matches_known_digest() {
    // SHA-256 of the verifier text, base64url without padding.
    let c = generate_code_challenge("test-verifier-value");
    assert_eq!(c, "R-yFp3ykg184xTSr9BXHiHtbqWZXIG_H4B3K5EWSDzM");
}

#[test]
fn distinct_verifiers_give_distinct_challenges() {
    let c1 = generate_code_challenge("test-verifier-value");
    let c2 = generate_code_challenge("another-verifier");
    assert_ne!(c1, c2);
    assert_eq!(c2, "ioUtroeXJeFk4m9JCRbj550sEciRBF4Rj3vONdfv63Y");
}

#[test]
fn generator_output_shapes() {
    let v = generate_code_verifier();
    // 64 random bytes encode to 86 base64url characters without padding.
    assert_eq!(v.len(), 86);
    let s = generate_state();
    // 16 random bytes encode to 22 characters.
    assert_eq!(s.len(), 22);
    // Two generator calls must not collide.
    assert_ne!(generate_code_verifier(), v);
    assert_ne!(generate_state(), s);
}

#[test]
fn auth_url_carries_all_parameters() {
    let url = build_auth_url("R-yFp3ykg184xTSr9BXHiHtbqWZXIG_H4B3K5EWSDzM", "st-123").unwrap();
    assert!(url.starts_with("https://linear.app/oauth/authorize?"));
    assert!(url.contains("client_id=linear-tui"));
    assert!(url.contains("redirect_uri=http%3A%2F%2Flocalhost%3A8989%2Fcallback"));
    assert!(url.contains("response_type=code"));
    assert!(url.contains("scope=read+write+issues%3Acreate+comments%3Acreate"));
    assert!(url.contains("state=st-123"));
    assert!(url.contains(
        "code_challenge=R-yFp3ykg184xTSr9BXHiHtbqWZXIG_H4B3K5EWSDzM&code_challenge_method=S256"
    ));
    assert!(url.contains("prompt=consent"));
}

#[test]
fn callback_with_matching_state_is_accepted() {
    let req = b"GET /callback?code=ABC123&state=expected-state HTTP/1.1\r\nHost: localhost\r\n\r\n";
    let outcome = handle_callback_request(req, "expected-state");
    assert_eq!(outcome, CallbackOutcome::Accepted { code: b"ABC123".to_vec() });
}

#[test]
fn callback_with_wrong_state_is_a_mismatch() {
    let req = b"GET /callback?code=ABC123&state=forged HTTP/1.1\r\n\r\n";
    let outcome = handle_callback_request(req, "expected-state");
    assert_eq!(outcome, CallbackOutcome::StateMismatch);
}

#[test]
fn access_denied_is_classified_as_denial() {
    let req = b"GET /callback?error=access_denied HTTP/1.1\r\n\r\n";
    let outcome = handle_callback_request(req, "expected-state");
    assert_eq!(outcome, CallbackOutcome::Denied);
}

#[test]
fn other_provider_errors_keep_their_text() {
    let req = b"GET /callback?error=server_error HTTP/1.1\r\n\r\n";
    let outcome = handle_callback_request(req, "expected-state");
    assert_eq!(outcome, CallbackOutcome::ProviderFailure { message: b"server_error".to_vec() });
}

#[test]
fn unrelated_requests_are_ignored() {
    let req = b"GET /favicon.ico HTTP/1.1\r\n\r\n";
    assert_eq!(handle_callback_request(req, "s"), CallbackOutcome::NotACallback);
    let req2 = b"POST /callback?code=x&state=s HTTP/1.1\r\n\r\n";
    assert_eq!(handle_callback_request(req2, "s"), CallbackOutcome::NotACallback);
}

#[test]
fn callback_values_are_percent_decoded() {
    let req = b"GET /callback?code=a%2Bb&state=x+y HTTP/1.1\r\n\r\n";
    let outcome = handle_callback_request(req, "x y");
    assert_eq!(outcome, CallbackOutcome::Accepted { code: b"a+b".to_vec() });
}

#[test]
fn repeated_parameters_last_occurrence_wins() {
    let req = b"GET /callback?state=first&code=C1&state=expected HTTP/1.1\r\n\r\n";
    let outcome = handle_callback_request(req, "expected");
    assert_eq!(outcome, CallbackOutcome::Accepted { code: b"C1".to_vec() });
}

#[test]
fn malformed_percent_sequences_are_kept_literally() {
    let req = b"GET /callback?code=%GGx&state=s%2 HTTP/1.1\r\n\r\n";
    let outcome = handle_callback_request(req, "s%2");
    assert_eq!(outcome, CallbackOutcome::Accepted { code: b"%GGx".to_vec() });
}

#[test]
fn callback_without_parameters_keeps_the_listener_waiting() {
    let req = b"GET /callback HTTP/1.1\r\n\r\n";
    assert_eq!(handle_callback_request(req, "s"), CallbackOutcome::NotACallback);
    let req2 = b"GET /callback? HTTP/1.1\r\n\r\n";
    assert_eq!(handle_callback_request(req2, "s"), CallbackOutcome::NotACallback);
}

#[test]
fn timeout_fails_the_flow_without_an_exchange() {
    let s = FlowState::AwaitingCallback {
        verifier: "v".to_string(),
        expected_state: "s".to_string(),
    };
    let (next, action) = flow_step(s, FlowEvent::CallbackTimedOut);
    assert_eq!(next, FlowState::Failed { error: AuthError::Timeout });
    assert_eq!(action, FlowAction::Finish);
}

#[test]
fn failed_callback_never_reaches_the_exchanger() {
    let s = FlowState::AwaitingCallback {
        verifier: "v".to_string(),
        expected_state: "s".to_string(),
    };
    let (next, action) = flow_step(
        s,
        FlowEvent::CallbackFailed { error: AuthError::StateMismatch },
    );
    assert_eq!(next, FlowState::Failed { error: AuthError::StateMismatch });
    assert!(!matches!(action, FlowAction::ExchangeCode { .. }));
}

#[test]
fn flow_binds_the_exchange_to_the_original_verifier() {
    let (s1, a1) = flow_step(
        FlowState::Init,
        FlowEvent::MaterialReady {
            verifier: "original-verifier".to_string(),
            state: "st".to_string(),
            auth_url: "https://example.invalid/a".to_string(),
        },
    );
    assert_eq!(
        a1,
        FlowAction::PresentUrl { auth_url: "https://example.invalid/a".to_string() }
    );
    let (s2, a2) = flow_step(s1, FlowEvent::UrlPresented);
    assert_eq!(a2, FlowAction::AwaitCallback);
    let (s3, a3) = flow_step(s2, FlowEvent::CallbackSucceeded { code: "ABC123".to_string() });
    assert_eq!(
        a3,
        FlowAction::ExchangeCode {
            code: "ABC123".to_string(),
            verifier: "original-verifier".to_string(),
        }
    );
    let token = OAuthToken {
        access_token: "tok_x".to_string(),
        token_type: "Bearer".to_string(),
        scope: "read write".to_string(),
    };
    let (s4, a4) = flow_step(s3, FlowEvent::ExchangeSucceeded { token: token.clone() });
    assert_eq!(s4, FlowState::Authenticated { token });
    assert_eq!(a4, FlowAction::Finish);
}

#[test]
fn exchange_body_carries_the_verifier() {
    let body = token_request_body("ABC123", "original-verifier");
    assert_eq!(
        body,
        "{\"code\":\"ABC123\",\"redirect_uri\":\"http://localhost:8989/callback\",\
         \"client_id\":\"linear-tui\",\"code_verifier\":\"original-verifier\",\
         \"grant_type\":\"authorization_code\"}"
    );
    assert!(body.contains("\"code_verifier\":\"original-verifier\""));
}

#[test]
fn end_to_end_scenario() {
    let verifier = generate_code_verifier();
    let challenge = generate_code_challenge(&verifier);
    let state = generate_state();
    let url = build_auth_url(&challenge, &state).unwrap();
    assert!(url.contains(&format!(
        "code_challenge={}&code_challenge_method=S256",
        challenge
    )));
    let req = format!("GET /callback?code=ABC123&state={} HTTP/1.1\r\n\r\n", state);
    let outcome = handle_callback_request(req.as_bytes(), &state);
    assert_eq!(outcome, CallbackOutcome::Accepted { code: b"ABC123".to_vec() });
    let body = token_request_body("ABC123", &verifier);
    assert!(body.contains(&format!("\"code_verifier\":\"{}\"", verifier)));
    // The provider answers with a token record.
    let raw = "{\"access_token\":\"tok_x\",\"token_type\":\"Bearer\",\"scope\":\"read write\"}";
    let value: serde_json::Value = serde_json::from_str(raw).unwrap();
    let parsed = OAuthToken {
        access_token: value["access_token"].as_str().unwrap().to_string(),
        token_type: value["token_type"].as_str().unwrap().to_string(),
        scope: value["scope"].as_str().unwrap().to_string(),
    };
    let record = interpret_token_response(true, Some(parsed), raw).unwrap();
    assert_eq!(record.access_token, "tok_x");
    assert_eq!(record.token_type, "Bearer");
    assert_eq!(record.scope, "read write");
}

#[test]
fn failed_exchange_status_surfaces_the_body() {
    let r = interpret_token_response(false, None, "bad request");
    assert_eq!(
        r,
        Err(AuthError::ProviderError { message: "bad request".to_string() })
    );
}

#[test]
fn long_error_bodies_are_truncated() {
    let body: String = std::iter::repeat('x').take(800).collect();
    match interpret_token_response(false, None, &body) {
        Err(AuthError::ProviderError { message }) => {
            assert_eq!(message.len(), 500);
        }
        other => panic!("unexpected outcome: {:?}", other),
    }
}

#[test]
fn unparsable_success_body_is_a_provider_error() {
    let r = interpret_token_response(true, None, "not json");
    assert_eq!(
        r,
        Err(AuthError::ProviderError {
            message: "token response could not be parsed".to_string()
        })
    );
}

#[test]
fn invalid_auth_url_error_exists_for_bad_bases() {
    // The fixed endpoint is well-formed, so the builder succeeds.
    assert!(build_auth_url("c", "s").is_ok());
}
