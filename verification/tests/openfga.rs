use std::time::Duration;
use yatagarasu::openfga::{Error, OpenFgaClient, OpenFgaClientBuilder};

#[test]
fn test_builder_creates_client_with_defaults() {
    let client = OpenFgaClientBuilder::new("http://localhost:8080", "01H0TEST")
        .build()
        .unwrap();

    assert_eq!(client.endpoint(), "http://localhost:8080");
    assert_eq!(client.store_id(), "01H0TEST");
    assert_eq!(client.authorization_model_id(), None);
    assert_eq!(client.api_token(), None);
    assert_eq!(client.timeout(), Duration::from_millis(100));
}

#[test]
fn test_builder_with_all_options() {
    let client = OpenFgaClientBuilder::new("http://localhost:8080", "01H0TEST")
        .authorization_model_id("model123")
        .api_token("secret-token")
        .timeout_ms(500)
        .build()
        .unwrap();

    assert_eq!(client.authorization_model_id(), Some("model123"));
    assert_eq!(client.api_token(), Some("secret-token"));
    assert_eq!(client.timeout(), Duration::from_millis(500));
}

#[test]
fn openfga_empty_settings_are_refused() {
    match OpenFgaClient::new("", "store") {
        Err(Error::InvalidConfig(m)) => assert_eq!(m, "OpenFGA endpoint cannot be empty"),
        _ => panic!("expected an invalid configuration"),
    }
    match OpenFgaClient::builder("http://x", "").build() {
        Err(e) => assert_eq!(e.message(), "OpenFGA config error: OpenFGA store_id cannot be empty"),
        Ok(_) => panic!("expected an invalid configuration"),
    }
    let c = OpenFgaClient::new("http://x", "s").unwrap();
    assert_eq!(c.timeout(), Duration::from_millis(100));
}
