use blindpay::client::{BASE_URL, VERSION};
use blindpay::http::{Header, HttpMethod};
use blindpay::json::Json;
use blindpay::{BlindPay, BlindPayError};

#[test]
fn test_new_client() {
    let client = BlindPay::new("test-api-key", "test-instance-id");
    assert!(client.is_ok());
}

#[test]
fn client_test_missing_api_key() {
    let client = BlindPay::new("", "test-instance-id");
    assert!(matches!(client, Err(BlindPayError::MissingApiKey)));
}

#[test]
fn client_test_missing_instance_id() {
    let client = BlindPay::new("test-api-key", "");
    assert!(matches!(client, Err(BlindPayError::MissingInstanceId)));
}

#[test]
fn test_client_creation() {
    let client = BlindPay::new("test-api-key", "test-instance-id");
    assert!(client.is_ok());
}

#[test]
fn integration_test_test_missing_api_key() {
    let client = BlindPay::new("", "test-instance-id");
    assert!(matches!(client, Err(BlindPayError::MissingApiKey)));
}

#[test]
fn integration_test_test_missing_instance_id() {
    let client = BlindPay::new("test-api-key", "");
    assert!(matches!(client, Err(BlindPayError::MissingInstanceId)));
}

#[test]
fn test_client_has_resources() {
    let client = BlindPay::new("test-api-key", "test-instance-id").unwrap();

    let _available = client.available();
    let _instances = client.instances();
    let _partner_fees = client.partner_fees();
    let _payins = client.payins();
    let _payouts = client.payouts();
    let _receivers = client.receivers();
    let _virtual_accounts = client.virtual_accounts();
    let _wallets = client.wallets();
}

#[test]
fn both_empty_reports_the_api_key_first() {
    assert!(matches!(BlindPay::new("", ""), Err(BlindPayError::MissingApiKey)));
}

#[test]
fn whitespace_is_not_empty() {
    assert!(BlindPay::new(" ", " ").is_ok());
}

#[test]
fn client_keeps_the_instance_id() {
    let client = BlindPay::new("key", "in_42").unwrap();
    assert_eq!(client.instance_id(), "in_42");
    assert_eq!(client.clone().instance_id(), "in_42");
}

#[test]
fn resources_share_the_configuration() {
    let client = BlindPay::new("key", "in_42").unwrap();
    let direct = client.get("/instances/in_42/receivers");
    assert_eq!(client.receivers().list(), direct);
    let nested = client.instances().api_keys().list();
    assert_eq!(nested.url, format!("{}/instances/in_42/api-keys", BASE_URL));
    let wallets = client.wallets().blockchain().list("re_1");
    assert_eq!(
        wallets.url,
        "https://api.blindpay.com/v1/instances/in_42/receivers/re_1/blockchain-wallets"
    );
}

fn header(name: &str, value: &str) -> Header {
    Header { name: name.to_string(), value: value.to_string() }
}

#[test]
fn get_carries_the_fixed_headers_and_no_body() {
    let client = BlindPay::new("sk_test", "in_1").unwrap();
    let request = client.get("/available/rails");
    assert_eq!(request.method, HttpMethod::Get);
    assert_eq!(request.url, "https://api.blindpay.com/v1/available/rails");
    assert_eq!(
        request.headers,
        vec![
            header("Content-Type", "application/json"),
            header("Accept", "application/json"),
            header("Authorization", "Bearer sk_test"),
            header("User-Agent", "blindpay-rust/0.1.0"),
        ]
    );
    assert_eq!(request.body, None);
    assert_eq!(VERSION, "0.1.0");
}

#[test]
fn delete_carries_no_body() {
    let client = BlindPay::new("sk_test", "in_1").unwrap();
    let request = client.delete("/instances/in_1");
    assert_eq!(request.method, HttpMethod::Delete);
    assert_eq!(request.body, None);
}

#[test]
fn post_put_and_patch_carry_the_body() {
    let client = BlindPay::new("sk_test", "in_1").unwrap();
    let post = client.post("/x", Json::string("a"));
    assert_eq!(post.method, HttpMethod::Post);
    assert_eq!(post.body, Some(Json::string("a")));
    let put = client.put("/x", Json::Bool(true));
    assert_eq!(put.method, HttpMethod::Put);
    assert_eq!(put.body, Some(Json::Bool(true)));
    let patch = client.patch("/x", Json::Null);
    assert_eq!(patch.method, HttpMethod::Patch);
    assert_eq!(patch.body, Some(Json::Null));
    assert_eq!(patch.url, "https://api.blindpay.com/v1/x");
}

#[test]
fn method_names() {
    assert_eq!(HttpMethod::Get.as_str(), "GET");
    assert_eq!(HttpMethod::Post.as_str(), "POST");
    assert_eq!(HttpMethod::Put.as_str(), "PUT");
    assert_eq!(HttpMethod::Patch.as_str(), "PATCH");
    assert_eq!(HttpMethod::Delete.as_str(), "DELETE");
}

#[test]
fn error_messages() {
    assert_eq!(BlindPayError::ApiError("not found".to_string()).message(), "API error: not found");
    assert_eq!(
        BlindPayError::RequestFailed("timed out".to_string()).message(),
        "HTTP request failed: timed out"
    );
    assert_eq!(
        BlindPayError::SerializationError("eof".to_string()).message(),
        "JSON serialization/deserialization failed: eof"
    );
    assert_eq!(BlindPayError::MissingApiKey.message(), "Missing API key");
    assert_eq!(BlindPayError::MissingInstanceId.message(), "Missing instance ID");
    assert_eq!(
        BlindPayError::InvalidConfiguration("base url".to_string()).message(),
        "Invalid configuration: base url"
    );
}

#[test]
fn a_request_can_be_copied() {
    let client = BlindPay::new("sk_test", "in_1").unwrap();
    let request = client.post("/x", Json::string("a"));
    assert_eq!(request.clone(), request);
}
