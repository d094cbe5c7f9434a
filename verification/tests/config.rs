use spot_supervisor::config::{endpoints, listen_key_path, market_ws_url, resolve_testnet, rest_api_url, Config, REST_TIMEOUT_MS};

#[test]
fn testnet_endpoints() {
    assert_eq!(market_ws_url(true), "wss://stream.testnet.binance.vision/ws");
    assert_eq!(rest_api_url(true), "https://testnet.binance.vision");
    let (ws, api) = endpoints(true);
    assert_eq!(ws, "wss://stream.testnet.binance.vision/ws");
    assert_eq!(api, "https://testnet.binance.vision");
}

#[test]
fn production_endpoints() {
    assert_eq!(market_ws_url(false), "wss://stream.binance.com:9443/ws");
    assert_eq!(rest_api_url(false), "https://api.binance.com");
    let (ws, api) = endpoints(false);
    assert_eq!(ws, "wss://stream.binance.com:9443/ws");
    assert_eq!(api, "https://api.binance.com");
}

#[test]
fn listen_key_paths() {
    assert_eq!(listen_key_path(true), "/sapi/v1/userDataStream");
    assert_eq!(listen_key_path(false), "/api/v3/userDataStream");
}

#[test]
fn testnet_flag_defaults_on() {
    assert!(resolve_testnet(None));
    assert!(resolve_testnet(Some(true)));
    assert!(!resolve_testnet(Some(false)));
}

#[test]
fn config_selects_one_environment() {
    let c = Config::new(
        true,
        "key".to_string(),
        "pem".to_string(),
        "127.0.0.1:8080".to_string(),
        Some(false),
    );
    assert!(!c.testnet);
    assert_eq!(c.ws_url(), "wss://stream.binance.com:9443/ws");
    assert_eq!(c.api_url(), "https://api.binance.com");
    assert_eq!(c.listen_key_path(), "/sapi/v1/userDataStream");

    let d = Config::new(
        false,
        "key".to_string(),
        "pem".to_string(),
        "127.0.0.1:8080".to_string(),
        None,
    );
    assert!(d.testnet);
    assert_eq!(d.ws_url(), "wss://stream.testnet.binance.vision/ws");
    assert_eq!(d.api_url(), "https://testnet.binance.vision");
    assert_eq!(d.listen_key_path(), "/api/v3/userDataStream");
}

#[test]
fn rest_timeout_is_bounded() {
    assert_eq!(REST_TIMEOUT_MS, 3000);
}
