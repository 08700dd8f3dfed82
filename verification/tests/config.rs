use ws_client::vcp_config::{
    deserialize_url, AddressParseError, Config, ConfigError, Endpoint, UrlVisitor,
};

#[test]
fn endpoint_holds_the_normalized_url() {
    let endpoint = Endpoint::parse("WS://Example.COM").unwrap();
    assert_eq!(endpoint.as_str(), "ws://example.com/");
}

#[test]
fn endpoint_keeps_port_path_and_query() {
    let endpoint = Endpoint::parse("ws://localhost:9001/feed?topic=a b").unwrap();
    assert_eq!(endpoint.as_str(), "ws://localhost:9001/feed?topic=a%20b");
}

#[test]
fn endpoint_refuses_text_that_is_no_url() {
    assert_eq!(
        Endpoint::parse("not a url"),
        Err(ConfigError::InvalidUrl("relative URL without a base".to_string()))
    );
}

#[test]
fn endpoint_refuses_an_empty_host() {
    assert_eq!(
        Endpoint::parse("ws://"),
        Err(ConfigError::InvalidUrl("empty host".to_string()))
    );
}

#[test]
fn endpoint_refuses_a_bad_port() {
    let error = Endpoint::parse("ws://localhost:99999/").unwrap_err();
    assert_eq!(error.message(), "invalid port number");
}

#[test]
fn visitor_says_what_it_expects() {
    assert_eq!(UrlVisitor.expecting(), "a valid URL string");
}

#[test]
fn visitor_parses_the_text_it_is_given() {
    let endpoint = UrlVisitor.visit_str("wss://echo.example.org/socket").unwrap();
    assert_eq!(endpoint.as_str(), "wss://echo.example.org/socket");
    assert!(UrlVisitor.visit_str("").is_err());
}

#[test]
fn deserialize_url_agrees_with_the_visitor() {
    assert_eq!(deserialize_url("ws://127.0.0.1:8080"), UrlVisitor.visit_str("ws://127.0.0.1:8080"));
    assert_eq!(deserialize_url("::"), UrlVisitor.visit_str("::"));
    assert_eq!(deserialize_url("ws://127.0.0.1:8080").unwrap().as_str(), "ws://127.0.0.1:8080/");
}

#[test]
fn config_is_built_from_a_valid_address_only() {
    let config = Config::from_server_url("ws://localhost:9001").unwrap();
    assert_eq!(config.server_url.as_str(), "ws://localhost:9001/");
    assert_eq!(
        Config::from_server_url("//localhost:9001"),
        Err(ConfigError::InvalidUrl("relative URL without a base".to_string()))
    );
}

#[test]
fn request_target_of_a_usable_address_is_the_address() {
    let endpoint = Endpoint::parse("ws://localhost:9001/feed").unwrap();
    assert_eq!(endpoint.request_target(), Ok("ws://localhost:9001/feed".to_string()));
}

#[test]
fn request_target_refuses_an_address_that_is_too_long() {
    let long = format!("ws://localhost/{}", "a".repeat(70_000));
    let endpoint = Endpoint::parse(&long).unwrap();
    assert_eq!(endpoint.as_str(), long);
    assert_eq!(
        endpoint.request_target(),
        Err(AddressParseError { reason: "uri too long".to_string() })
    );
}
