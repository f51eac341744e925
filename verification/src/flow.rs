//! The authentication orchestrator, as a state machine over plain values.
//!
//! The machine walks `Init -> AwaitingUserConsent -> AwaitingCallback ->
//! Exchanging -> Authenticated | Failed`. Every transition is a pure
//! function of the current state and one event; the caller performs the
//! action the machine asks for (present the URL, await the callback with
//! a deadline, post the token exchange) and feeds the result back as the
//! next event. The code is exchanged only with the verifier generated at
//! the start of the very same flow — the PKCE binding.

use vstd::prelude::*;
use vstd::string::StringSliceAdditionalSpecFns;
use crate::config::OAuthToken;
use crate::callback::callback_param;
use crate::callback::outcome_spec;
use crate::callback::SpecOutcome;

verus! {

/// Why an authentication attempt failed.
#[derive(Debug, Clone, PartialEq, Eq)]
pub enum AuthError {
    /// The authorization endpoint URL was malformed (a programming error).
    InvalidAuthUrl,
    /// The local redirect port could not be bound.
    ListenerBindFailure,
    /// The user denied consent at the provider.
    UserDenied,
    /// The callback's state value did not match the expected one.
    StateMismatch,
    /// No callback arrived within the configured deadline.
    Timeout,
    /// A transport-level failure while talking to the provider.
    NetworkError,
    /// The provider answered with an error; the message carries its text.
    ProviderError { message: String },
}

/// The states of one authentication attempt.
#[derive(Debug, Clone, PartialEq, Eq)]
pub enum FlowState {
    /// Nothing has happened yet.
    Init,
    /// Material is generated; the URL is being presented to the user.
    AwaitingUserConsent { verifier: String, expected_state: String, auth_url: String },
    /// The listener is up; the flow waits for its one-shot result.
    AwaitingCallback { verifier: String, expected_state: String },
    /// A valid code arrived; the token exchange is in flight.
    Exchanging { verifier: String, code: String },
    /// The exchange succeeded.
    Authenticated { token: OAuthToken },
    /// The attempt failed; it is terminal and must be re-initiated by the
    /// user.
    Failed { error: AuthError },
}

/// What happened since the last transition.
#[derive(Debug, Clone, PartialEq, Eq)]
pub enum FlowEvent {
    /// The verifier, state value and authorization URL are ready.
    MaterialReady { verifier: String, state: String, auth_url: String },
    /// The URL was opened or displayed (best effort either way).
    UrlPresented,
    /// The local listener could not bind its port.
    ListenerBindFailed,
    /// The listener delivered a state-validated authorization code.
    CallbackSucceeded { code: String },
    /// The listener delivered a failure.
    CallbackFailed { error: AuthError },
    /// The deadline passed with no callback.
    CallbackTimedOut,
    /// The token exchange returned a token record.
    ExchangeSucceeded { token: OAuthToken },
    /// The token exchange failed.
    ExchangeFailed { error: AuthError },
}

/// What the caller must do after a transition.
#[derive(Debug, Clone, PartialEq, Eq)]
pub enum FlowAction {
    /// Open the authorization URL for the user and show it as a fallback.
    PresentUrl { auth_url: String },
    /// Start the listener and wait for its result with the deadline.
    AwaitCallback,
    /// Exchange the code for a token, with this flow's own verifier.
    ExchangeCode { code: String, verifier: String },
    /// The flow is terminal; report the result.
    Finish,
    /// The event does not apply in this state; do nothing.
    Ignore,
}

/// The transition function of the orchestrator.
pub open spec fn flow_step_spec(s: FlowState, e: FlowEvent) -> (FlowState, FlowAction) {
    match (s, e) {
        (FlowState::Init, FlowEvent::MaterialReady { verifier, state, auth_url }) => (
            FlowState::AwaitingUserConsent {
                verifier: verifier,
                expected_state: state,
                auth_url: auth_url,
            },
            FlowAction::PresentUrl { auth_url: auth_url },
        ),
        (
            FlowState::AwaitingUserConsent { verifier, expected_state, auth_url: _ },
            FlowEvent::UrlPresented,
        ) => (
            FlowState::AwaitingCallback { verifier: verifier, expected_state: expected_state },
            FlowAction::AwaitCallback,
        ),
        (
            FlowState::AwaitingCallback { verifier, expected_state: _ },
            FlowEvent::CallbackSucceeded { code },
        ) => (
            FlowState::Exchanging { verifier: verifier, code: code },
            FlowAction::ExchangeCode { code: code, verifier: verifier },
        ),
        (
            FlowState::AwaitingCallback { verifier: _, expected_state: _ },
            FlowEvent::CallbackFailed { error },
        ) => (FlowState::Failed { error: error }, FlowAction::Finish),
        (
            FlowState::AwaitingCallback { verifier: _, expected_state: _ },
            FlowEvent::CallbackTimedOut,
        ) => (FlowState::Failed { error: AuthError::Timeout }, FlowAction::Finish),
        (
            FlowState::AwaitingCallback { verifier: _, expected_state: _ },
            FlowEvent::ListenerBindFailed,
        ) => (FlowState::Failed { error: AuthError::ListenerBindFailure }, FlowAction::Finish),
        (FlowState::Exchanging { verifier: _, code: _ }, FlowEvent::ExchangeSucceeded { token })
            => (FlowState::Authenticated { token: token }, FlowAction::Finish),
        (FlowState::Exchanging { verifier: _, code: _ }, FlowEvent::ExchangeFailed { error })
            => (FlowState::Failed { error: error }, FlowAction::Finish),
        (other, _) => (other, FlowAction::Ignore),
    }
}

/// Performs one transition of the orchestrator.
pub fn flow_step(s: FlowState, e: FlowEvent) -> (r: (FlowState, FlowAction))
    ensures
        r == flow_step_spec(s, e),
{
    match (s, e) {
        (FlowState::Init, FlowEvent::MaterialReady { verifier, state, auth_url }) => (
            FlowState::AwaitingUserConsent {
                verifier: verifier,
                expected_state: state,
                auth_url: auth_url.clone(),
            },
            FlowAction::PresentUrl { auth_url: auth_url },
        ),
        (
            FlowState::AwaitingUserConsent { verifier, expected_state, auth_url: _ },
            FlowEvent::UrlPresented,
        ) => (
            FlowState::AwaitingCallback { verifier: verifier, expected_state: expected_state },
            FlowAction::AwaitCallback,
        ),
        (
            FlowState::AwaitingCallback { verifier, expected_state: _ },
            FlowEvent::CallbackSucceeded { code },
        ) => (
            FlowState::Exchanging { verifier: verifier.clone(), code: code.clone() },
            FlowAction::ExchangeCode { code: code, verifier: verifier },
        ),
        (
            FlowState::AwaitingCallback { verifier: _, expected_state: _ },
            FlowEvent::CallbackFailed { error },
        ) => (FlowState::Failed { error: error }, FlowAction::Finish),
        (
            FlowState::AwaitingCallback { verifier: _, expected_state: _ },
            FlowEvent::CallbackTimedOut,
        ) => (FlowState::Failed { error: AuthError::Timeout }, FlowAction::Finish),
        (
            FlowState::AwaitingCallback { verifier: _, expected_state: _ },
            FlowEvent::ListenerBindFailed,
        ) => (FlowState::Failed { error: AuthError::ListenerBindFailure }, FlowAction::Finish),
        (FlowState::Exchanging { verifier: _, code: _ }, FlowEvent::ExchangeSucceeded { token })
            => (FlowState::Authenticated { token: token }, FlowAction::Finish),
        (FlowState::Exchanging { verifier: _, code: _ }, FlowEvent::ExchangeFailed { error })
            => (FlowState::Failed { error: error }, FlowAction::Finish),
        (other, _) => (other, FlowAction::Ignore),
    }
}

/// Law: if the deadline passes with no callback, the attempt fails with
/// `Timeout`, and no transition on a timeout ever asks for a token
/// exchange — whatever state the flow is in.
pub proof fn lemma_timeout_never_exchanges(s: FlowState)
    ensures
        s is AwaitingCallback ==> flow_step_spec(s, FlowEvent::CallbackTimedOut).0 == (
        FlowState::Failed { error: AuthError::Timeout }),
        !(flow_step_spec(s, FlowEvent::CallbackTimedOut).1 is ExchangeCode),
{
}

/// Law: a token exchange is requested only when a state-validated code
/// arrives while the flow awaits the callback, and then with exactly the
/// delivered code and the verifier this flow was started with.
pub proof fn lemma_exchange_only_on_accepted_callback(s: FlowState, e: FlowEvent)
    ensures
        flow_step_spec(s, e).1 matches FlowAction::ExchangeCode { code, verifier } ==> {
            &&& s matches FlowState::AwaitingCallback { verifier: v, expected_state: _ }
                && verifier == v
            &&& e matches FlowEvent::CallbackSucceeded { code: c } && code == c
        },
{
}

/// Law: a callback carrying a code under a state value other than the
/// expected one never reaches the token exchanger: the callback is
/// judged a `StateMismatch`, and feeding that failure to the
/// orchestrator — in whatever state it is — never asks for an exchange.
pub proof fn lemma_mismatched_callback_never_exchanges(
    req: Seq<u8>,
    expected: Seq<u8>,
    got: Seq<u8>,
    s: FlowState,
)
    requires
        callback_param(req, "code".spec_bytes()) is Some,
        callback_param(req, "state".spec_bytes()) == Some(got),
        got != expected,
    ensures
        outcome_spec(req, expected) == SpecOutcome::StateMismatch,
        !(flow_step_spec(
            s,
            FlowEvent::CallbackFailed { error: AuthError::StateMismatch },
        ).1 is ExchangeCode),
{
    crate::callback::lemma_state_mismatch_rejected(req, expected, got);
}

/// Law: a failed callback — a state mismatch among them — never leads to
/// a token exchange; the flow fails with the delivered error.
pub proof fn lemma_failed_callback_never_exchanges(s: FlowState, error: AuthError)
    ensures
        !(flow_step_spec(s, FlowEvent::CallbackFailed { error }).1 is ExchangeCode),
        s is AwaitingCallback ==> flow_step_spec(
            s,
            FlowEvent::CallbackFailed { error: error },
        ).0 == (FlowState::Failed { error: error }),
{
}

} // verus!
