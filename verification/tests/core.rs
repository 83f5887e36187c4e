//! Credential store, token authority and request-executor behaviour.

use helix_client::client::{Client, Decision, GateStep};
use helix_client::credentials::Credentials;
use helix_client::error::Error;
use helix_client::token::{apply_mint_outcome, obtain_plan, TokenPlan};

fn secret_only() -> Credentials {
    Credentials::from_client_secret(
        String::from("hunter2"),
        vec![String::from("chat:read"), String::from("chat:edit")],
    )
}

fn client() -> Client {
    match Client::new("agent/1.0", "client-id-1", secret_only()) {
        Ok(c) => c,
        Err(_) => panic!("construction must succeed"),
    }
}

#[test]
fn scopes_join_with_spaces() {
    let creds = secret_only();
    match obtain_plan(&creds, None) {
        TokenPlan::Mint { client_secret, scopes } => {
            assert_eq!(client_secret, "hunter2");
            assert_eq!(scopes, "chat:read chat:edit");
        }
        _ => panic!("a secret-only store must plan a mint"),
    }
}

#[test]
fn cached_token_is_returned_without_mint() {
    let creds = Credentials::from_oauth_token(String::from("tok"));
    match obtain_plan(&creds, None) {
        TokenPlan::UseCached { token } => assert_eq!(token, "tok"),
        _ => panic!("a cached token must be reused"),
    }
    let creds = Credentials::from_client_secret_and_oauth_token(
        String::from("s"),
        vec![String::from("scope")],
        String::from("tok2"),
    );
    match obtain_plan(&creds, None) {
        TokenPlan::UseCached { token } => assert_eq!(token, "tok2"),
        _ => panic!("a cached token must be reused"),
    }
}

#[test]
fn unauthorized_with_secret_and_token_mints_once() {
    let mut creds = Credentials::from_client_secret_and_oauth_token(
        String::from("s"),
        vec![String::from("scope")],
        String::from("old-token"),
    );
    let error = Error::Unauthorized { body: String::from("expired") };
    match obtain_plan(&creds, Some(error)) {
        TokenPlan::Mint { client_secret, scopes } => {
            assert_eq!(client_secret, "s");
            assert_eq!(scopes, "scope");
        }
        _ => panic!("a store with a secret must remint"),
    }
    let minted = apply_mint_outcome(
        &mut creds,
        Some(200),
        String::from("{\"access_token\":\"new-token\"}"),
    );
    match minted {
        Ok(token) => assert_eq!(token, "new-token"),
        Err(_) => panic!("a success response carrying a token must succeed"),
    }
    match creds {
        Credentials::SecretAndToken { client_secret, scopes, token } => {
            assert_eq!(client_secret, "s");
            assert_eq!(scopes, "scope");
            assert_eq!(token, "new-token");
        }
        _ => panic!("the store must keep its secret and cache the new token"),
    }
}

#[test]
fn unauthorized_without_secret_returns_same_error() {
    let creds = Credentials::from_oauth_token(String::from("tok"));
    let error = Error::Unauthorized { body: String::from("expired") };
    match obtain_plan(&creds, Some(error)) {
        TokenPlan::Fail { error: Error::Unauthorized { body } } => assert_eq!(body, "expired"),
        _ => panic!("without a secret the failure must be surfaced unchanged"),
    }
}

#[test]
fn unrelated_error_is_surfaced_unchanged() {
    let creds = secret_only();
    let error = Error::ClientError { status: 404, body: String::from("missing") };
    match obtain_plan(&creds, Some(error)) {
        TokenPlan::Fail { error: Error::ClientError { status, body } } => {
            assert_eq!(status, 404);
            assert_eq!(body, "missing");
        }
        _ => panic!("a non-auth failure must not trigger reauthentication"),
    }
}

#[test]
fn secret_only_mints_once_then_reuses_cache() {
    let mut creds = secret_only();
    let mut mints = 0;
    let token = match obtain_plan(&creds, None) {
        TokenPlan::Mint { .. } => {
            mints += 1;
            match apply_mint_outcome(
                &mut creds,
                Some(200),
                String::from("{\"access_token\":\"fresh\"}"),
            ) {
                Ok(token) => token,
                Err(_) => panic!("the mint response must be accepted"),
            }
        }
        _ => panic!("the first call must mint"),
    };
    assert_eq!(token, "fresh");
    match obtain_plan(&creds, None) {
        TokenPlan::UseCached { token } => assert_eq!(token, "fresh"),
        TokenPlan::Mint { .. } => panic!("the second call must not mint"),
        TokenPlan::Fail { .. } => panic!("the second call must not fail"),
    }
    assert_eq!(mints, 1);
}

#[test]
fn mint_without_token_in_body_is_decode_error() {
    let mut creds = secret_only();
    match apply_mint_outcome(&mut creds, Some(200), String::from("{\"kind\":\"other\"}")) {
        Err(Error::Decode { body }) => assert_eq!(body, "{\"kind\":\"other\"}"),
        _ => panic!("a success response without a token must be a decode failure"),
    }
    assert!(matches!(creds, Credentials::SecretOnly { .. }));
}

#[test]
fn mint_failure_is_classified_and_terminal() {
    let mut creds = secret_only();
    match apply_mint_outcome(&mut creds, Some(403), String::from("forbidden")) {
        Err(Error::ClientError { status, body }) => {
            assert_eq!(status, 403);
            assert_eq!(body, "forbidden");
        }
        _ => panic!("a 403 mint response must be a client error"),
    }
    match apply_mint_outcome(&mut creds, None, String::new()) {
        Err(Error::ServerOrTransport { status: None, .. }) => {}
        _ => panic!("a transport failure during mint must be classified as such"),
    }
    assert!(matches!(creds, Credentials::SecretOnly { .. }));
}

#[test]
fn construction_rejects_illegal_header_values() {
    match Client::new("agent/1.0", "bad\u{7f}id", secret_only()) {
        Err(Error::Configuration) => {}
        _ => panic!("a delete character in a header value must be rejected"),
    }
    match Client::new("bad\nagent", "id", secret_only()) {
        Err(Error::Configuration) => {}
        _ => panic!("a newline in a header value must be rejected"),
    }
    let c = client();
    assert_eq!(c.user_agent, "agent/1.0");
    assert_eq!(c.client_id, "client-id-1");
    assert!(c.rate_limit_reset.is_none());
}

#[test]
fn gate_waits_until_reset_then_opens() {
    let mut c = client();
    assert!(matches!(c.gate(0), GateStep::Go));
    c.note_rate_limit(Some(100));
    assert!(matches!(c.gate(50), GateStep::Wait { until: 100 }));
    assert!(matches!(c.gate(99), GateStep::Wait { until: 100 }));
    assert!(matches!(c.gate(100), GateStep::Go));
    assert!(matches!(c.gate(150), GateStep::Go));
}

#[test]
fn responses_classify_as_the_executor_retries() {
    let mut c = client();
    assert!(matches!(c.handle_response(None, String::new(), None), Decision::Retry));
    assert!(matches!(c.handle_response(Some(500), String::from("oops"), None), Decision::Retry));
    assert!(matches!(c.handle_response(Some(503), String::from("oops"), None), Decision::Retry));
    match c.handle_response(Some(401), String::from("expired"), None) {
        Decision::Reauthenticate { error: Error::Unauthorized { body } } => {
            assert_eq!(body, "expired")
        }
        _ => panic!("a 401 must ask for reauthentication"),
    }
    match c.handle_response(Some(404), String::from("missing"), None) {
        Decision::Fail { error: Error::ClientError { status, body } } => {
            assert_eq!(status, 404);
            assert_eq!(body, "missing");
        }
        _ => panic!("another 4xx must be terminal"),
    }
    match c.handle_response(Some(200), String::from("{\"data\":1}"), None) {
        Decision::Success { body } => assert_eq!(body, "{\"data\":1}"),
        _ => panic!("a 2xx must succeed with the raw body"),
    }
}

#[test]
fn response_metadata_updates_the_rate_limit() {
    let mut c = client();
    let _ = c.handle_response(Some(429), String::from("slow down"), Some(2_000));
    assert!(matches!(c.gate(1_000), GateStep::Wait { until: 2_000 }));
    let _ = c.handle_response(Some(200), String::from("{}"), None);
    assert!(matches!(c.gate(1_000), GateStep::Wait { until: 2_000 }));
    let _ = c.handle_response(Some(200), String::from("{}"), Some(3_000));
    assert!(matches!(c.gate(2_500), GateStep::Wait { until: 3_000 }));
}

#[test]
fn mint_request_carries_the_grant_parameters() {
    let c = client();
    let q = c.mint_request(&String::from("hunter2"), &String::from("chat:read chat:edit"));
    let expected = vec![
        ("client_id", "client-id-1"),
        ("client_secret", "hunter2"),
        ("grant_type", "client_credentials"),
        ("scope", "chat:read chat:edit"),
    ];
    assert_eq!(q.len(), expected.len());
    for (pair, (k, v)) in q.iter().zip(expected) {
        assert_eq!(pair.0, k);
        assert_eq!(pair.1, v);
    }
}

#[test]
fn decode_data_extracts_the_data_field() {
    match helix_client::client::decode_data(String::from("{\"data\":{\"id\":\"7\"}}")) {
        Ok(data) => assert_eq!(data, "{\"id\":\"7\"}"),
        Err(_) => panic!("a body with a data field must decode"),
    }
    match helix_client::client::decode_data(String::from("not json at all")) {
        Err(Error::Decode { body }) => assert_eq!(body, "not json at all"),
        _ => panic!("an unparsable body must be a decode failure carrying the body"),
    }
    match helix_client::client::decode_data(String::from("{\"other\":1}")) {
        Err(Error::Decode { body }) => assert_eq!(body, "{\"other\":1}"),
        _ => panic!("a body without a data field must be a decode failure"),
    }
}

#[test]
fn errors_describe_themselves() {
    let e = Error::ClientError { status: 404, body: String::from("nope") };
    assert_eq!(e.describe(), "client error, status 404, body:\n\nnope");
    assert!(!e.is_invalid_oauth_token());
    assert!(!e.is_spurious_network_error());
    let e = Error::Unauthorized { body: String::from("x") };
    assert_eq!(e.describe(), "unauthorized, body:\n\nx");
    assert!(e.is_invalid_oauth_token());
    let e = Error::ServerOrTransport { status: Some(502), body: String::from("bad gateway") };
    assert_eq!(e.describe(), "server error, status 502, body:\n\nbad gateway");
    assert!(e.is_spurious_network_error());
    let e = Error::ServerOrTransport { status: None, body: String::new() };
    assert_eq!(e.describe(), "network error");
    assert_eq!(Error::Configuration.describe(), "invalid configuration");
    assert_eq!(
        Error::EmptyOrAmbiguous { empty: true }.describe(),
        "expected exactly one item, got none"
    );
    assert_eq!(
        Error::EmptyOrAmbiguous { empty: false }.describe(),
        "expected exactly one item, got several"
    );
}
