use fwcloud_agent::auth::Authorize;
use fwcloud_agent::config::{Config, Environment};
use fwcloud_agent::errors::FwcError;

const KEY: &str = "d64c88318c8f213f427af857d0013f93";

fn config(allowed_ips: &str) -> Config {
    Config::new(&Environment {
        bind_ip: None,
        bind_port: None,
        workers: None,
        enable_ssl: None,
        allowed_ips: Some(String::from(allowed_ips)),
        enable_api_key: None,
        api_key: Some(String::from(KEY)),
        fwcloud_script_paths: None,
        openvpn_status_files: None,
        openvpn_status_sampling_interval: None,
        openvpn_status_request_max_lines: None,
        openvpn_status_cache_max_size: None,
        random_api_key: String::new(),
    })
    .unwrap()
}

#[test]
fn request_without_key_is_refused() {
    let cfg = config("");
    assert!(matches!(
        Authorize::call(Some(&cfg), None, Some("127.0.0.1:5000")),
        Err(FwcError::ApiKeyNotFound)
    ));
}

#[test]
fn request_with_another_key_is_refused() {
    let cfg = config("");
    assert!(matches!(
        Authorize::call(Some(&cfg), Some("1234567812345678"), Some("127.0.0.1:5000")),
        Err(FwcError::ApiKeyNotValid)
    ));
}

#[test]
fn request_with_the_key_is_served() {
    let cfg = config("");
    assert!(Authorize::call(Some(&cfg), Some(KEY), Some("127.0.0.1:5000")).is_ok());
    assert!(Authorize::call(Some(&cfg), Some(KEY), None).is_ok());
}

#[test]
fn peer_among_the_allowed_is_served() {
    let cfg = config("10.0.0.1 127.0.0.1");
    assert!(Authorize::call(Some(&cfg), Some(KEY), Some("127.0.0.1:5000")).is_ok());
    assert!(Authorize::call(Some(&cfg), Some(KEY), Some("10.0.0.1")).is_ok());
}

#[test]
fn peer_not_among_the_allowed_is_refused() {
    let cfg = config("10.20.30.40");
    assert!(matches!(
        Authorize::call(Some(&cfg), Some(KEY), Some("127.0.0.1:5000")),
        Err(FwcError::NotAllowedIP)
    ));
    match Authorize::call(Some(&cfg), Some(KEY), None) {
        Err(FwcError::Internal(text)) => assert_eq!(
            text,
            "Allowed IPs list not empty and was not possible to get the remote IP"
        ),
        _ => panic!("Internal error expected"),
    }
    // The key is looked at first.
    assert!(matches!(
        Authorize::call(Some(&cfg), Some("other"), Some("10.20.30.40:1")),
        Err(FwcError::ApiKeyNotValid)
    ));
}

#[test]
fn request_without_settings_is_refused() {
    match Authorize::call(None, Some(KEY), None) {
        Err(FwcError::Internal(text)) => assert_eq!(
            text,
            "Error accessing configuration from authorization middleware"
        ),
        _ => panic!("Internal error expected"),
    }
}
