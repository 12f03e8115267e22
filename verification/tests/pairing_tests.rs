use chottu::errors::{PairError, PairField, StoreError};
use chottu::pairing::{
    complete_pairing, confirm_from_start, start_request, token_from_confirm, HttpOutcome,
    PairParams, PairRequest,
};
use chottu::store::TokenStore;

fn params(server_url: &str) -> PairParams {
    PairParams {
        server_url: server_url.to_string(),
        pair_code: "445566".to_string(),
        device_name: "MyLaptop".to_string(),
    }
}

fn mock_store() -> Result<TokenStore, StoreError> {
    keyring::set_default_credential_builder(keyring::mock::default_credential_builder());
    let opened = TokenStore::open("Chottu-Desktop-Test", "device_token");
    assert!(opened.is_ok(), "mock store must open");
    opened
}

fn token_in(store: &Result<TokenStore, StoreError>) -> Result<String, StoreError> {
    store.as_ref().expect("mock store must open").load_token()
}

fn body_fields(request: &PairRequest) -> serde_json::Map<String, serde_json::Value> {
    let body = request.body.as_ref().expect("the confirm call must carry a body");
    serde_json::from_str(body).expect("the confirm body must be a JSON object")
}

#[test]
fn start_request_posts_empty_body_to_pair_start() {
    let request = start_request(&params("https://example.com"));
    assert_eq!(request.url, "https://example.com/pair/start");
    assert!(request.body.is_none());
}

#[test]
fn start_request_normalizes_trailing_slashes() {
    let request = start_request(&params("https://example.com/"));
    assert_eq!(request.url, "https://example.com/pair/start");
    let request = start_request(&params("https://example.com///"));
    assert_eq!(request.url, "https://example.com/pair/start");
}

#[test]
fn start_request_handles_edge_bases() {
    let request = start_request(&params("/"));
    assert_eq!(request.url, "/pair/start");
    let request = start_request(&params(""));
    assert_eq!(request.url, "/pair/start");
    let request = start_request(&params("https://例え.jp/"));
    assert_eq!(request.url, "https://例え.jp/pair/start");
}

#[test]
fn confirm_request_carries_exact_fields() {
    let outcome = HttpOutcome::Reply("{\"pair_id\":\"abc123\"}".to_string());
    let request = confirm_from_start(&params("https://example.com"), &outcome)
        .expect("a granted pair_id must yield the confirm call");
    assert_eq!(request.url, "https://example.com/pair/confirm");
    let fields = body_fields(&request);
    assert_eq!(fields.len(), 3);
    assert_eq!(fields.get("pair_id").and_then(|v| v.as_str()), Some("abc123"));
    assert_eq!(fields.get("code").and_then(|v| v.as_str()), Some("445566"));
    assert_eq!(fields.get("device_name").and_then(|v| v.as_str()), Some("MyLaptop"));
}

#[test]
fn start_reply_without_pair_id_is_a_protocol_error() {
    for body in ["{}", "{\"pair_id\": 7}", "not json", "[1, 2]"] {
        let outcome = HttpOutcome::Reply(body.to_string());
        let result = confirm_from_start(&params("https://example.com"), &outcome);
        assert!(matches!(result, Err(PairError::Protocol(PairField::PairId))));
    }
}

#[test]
fn transport_failure_is_a_network_error() {
    let result = confirm_from_start(&params("https://example.com"), &HttpOutcome::Failed);
    assert!(matches!(result, Err(PairError::Network)));
    let result = token_from_confirm(&HttpOutcome::Failed);
    assert!(matches!(result, Err(PairError::Network)));
}

#[test]
fn confirm_reply_grants_its_device_token() {
    let outcome = HttpOutcome::Reply("{\"device_token\":\"tok_xyz\"}".to_string());
    assert_eq!(token_from_confirm(&outcome), Ok("tok_xyz".to_string()));
}

#[test]
fn confirm_reply_without_token_persists_nothing() {
    let store = mock_store();
    store
        .as_ref()
        .expect("mock store must open")
        .save_token("earlier")
        .expect("the mock store accepts writes");
    for body in ["{}", "{\"device_token\": 7}", "not json"] {
        let outcome = HttpOutcome::Reply(body.to_string());
        let result = complete_pairing(&store, &outcome);
        assert!(matches!(result, Err(PairError::Protocol(PairField::DeviceToken))));
    }
    assert_eq!(token_in(&store), Ok("earlier".to_string()));
}

#[test]
fn store_open_failure_is_a_storage_error() {
    let failed: Result<TokenStore, StoreError> = Err(StoreError::Unavailable);
    let outcome = HttpOutcome::Reply("{\"device_token\":\"tok_xyz\"}".to_string());
    assert_eq!(
        complete_pairing(&failed, &outcome),
        Err(PairError::Storage(StoreError::Unavailable))
    );
}

#[test]
fn reply_failure_takes_precedence_over_store_failure() {
    let failed: Result<TokenStore, StoreError> = Err(StoreError::Unavailable);
    let result = complete_pairing(&failed, &HttpOutcome::Failed);
    assert!(matches!(result, Err(PairError::Network)));
    let outcome = HttpOutcome::Reply("{}".to_string());
    let result = complete_pairing(&failed, &outcome);
    assert!(matches!(result, Err(PairError::Protocol(PairField::DeviceToken))));
}

#[test]
fn pairing_scenario_returns_and_persists_the_token() {
    let store = mock_store();
    let p = params("https://example.com");

    let start = start_request(&p);
    assert_eq!(start.url, "https://example.com/pair/start");

    let start_outcome = HttpOutcome::Reply("{\"pair_id\":\"abc123\"}".to_string());
    let confirm = confirm_from_start(&p, &start_outcome).expect("start granted a pair_id");
    let fields = body_fields(&confirm);
    assert_eq!(fields.get("pair_id").and_then(|v| v.as_str()), Some("abc123"));
    assert_eq!(fields.get("code").and_then(|v| v.as_str()), Some("445566"));
    assert_eq!(fields.get("device_name").and_then(|v| v.as_str()), Some("MyLaptop"));

    let confirm_outcome = HttpOutcome::Reply("{\"device_token\":\"tok_xyz\"}".to_string());
    let token = complete_pairing(&store, &confirm_outcome).expect("confirm granted a token");
    assert_eq!(token, "tok_xyz");
    assert_eq!(token_in(&store), Ok("tok_xyz".to_string()));
}

#[test]
fn re_pairing_overwrites_the_stored_token() {
    let store = mock_store();
    let first = HttpOutcome::Reply("{\"device_token\":\"token-a\"}".to_string());
    assert_eq!(complete_pairing(&store, &first), Ok("token-a".to_string()));
    let second = HttpOutcome::Reply("{\"device_token\":\"token-b\"}".to_string());
    assert_eq!(complete_pairing(&store, &second), Ok("token-b".to_string()));
    assert_eq!(token_in(&store), Ok("token-b".to_string()));
}

#[test]
fn pair_error_messages_distinguish_the_kinds() {
    assert_eq!(PairError::Network.message(), "network error");
    assert_eq!(PairError::Protocol(PairField::PairId).message(), "invalid pair_id");
    assert_eq!(
        PairError::Protocol(PairField::DeviceToken).message(),
        "invalid device_token"
    );
    assert_eq!(
        PairError::Storage(StoreError::Unavailable).message(),
        "could not save token: the credential store is unavailable"
    );
}
