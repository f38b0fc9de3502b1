use meta_secret_core::error::CoreError;
use meta_secret_core::sync::api_url::{ApiUrl, ClientRunMode, LocalHost};
use meta_secret_core::sync::environment::{parse_server_environment, ServerEnvironment};
use meta_secret_core::sync::ws_url::meta_ws_url_from_http_api_base;

#[test]
fn https_to_wss() {
    assert_eq!(meta_ws_url_from_http_api_base("https://api.example.com:443"), "wss://api.example.com:443/meta_ws");
}

#[test]
fn http_to_ws_trims_slash() {
    assert_eq!(meta_ws_url_from_http_api_base("http://127.0.0.1:3000/"), "ws://127.0.0.1:3000/meta_ws");
}

#[test]
fn bare_host_gets_ws_prefix() {
    assert_eq!(meta_ws_url_from_http_api_base("127.0.0.1:3000"), "ws://127.0.0.1:3000/meta_ws");
}

#[test]
fn bare_host_leading_slash_trimmed() {
    assert_eq!(meta_ws_url_from_http_api_base("/127.0.0.1:3000"), "ws://127.0.0.1:3000/meta_ws");
}

#[test]
fn many_trailing_slashes_are_trimmed() {
    assert_eq!(meta_ws_url_from_http_api_base("https://h//"), "wss://h/meta_ws");
}

#[test]
fn server_environment_names() {
    assert_eq!(parse_server_environment("local"), ServerEnvironment::Local);
    assert_eq!(parse_server_environment("  LOCAL \n"), ServerEnvironment::Local);
    assert_eq!(parse_server_environment("Production"), ServerEnvironment::Remote);
    assert_eq!(parse_server_environment("prod"), ServerEnvironment::Remote);
    assert_eq!(parse_server_environment("remote"), ServerEnvironment::Remote);
    assert_eq!(parse_server_environment("staging"), ServerEnvironment::Remote);
}

#[test]
fn run_mode_parse() {
    assert_eq!(ClientRunMode::parse("dev").unwrap(), ClientRunMode::Dev);
    assert_eq!(ClientRunMode::parse("prod").unwrap(), ClientRunMode::Prod);
    assert_eq!(ClientRunMode::parse("Dev").unwrap_err(), CoreError::UnknownRunMode { mode: "Dev".to_string() });
}

#[test]
fn api_urls() {
    assert_eq!(ApiUrl::prod().get_url(), "https://api.meta-secret.org:443");
    assert_eq!(ApiUrl::dev().get_url(), "https://localhost:443");
    assert_eq!(ApiUrl::selected().get_url(), "https://api.meta-secret.org:443");
    assert_eq!(ApiUrl::custom_dev("http://h", 8080).get_url(), "http://h:8080");
    assert_eq!(ApiUrl::local_with(None, LocalHost::Loopback).get_url(), "http://127.0.0.1:3000");
    assert_eq!(ApiUrl::local_with(Some("  http://e2e:9000/ "), LocalHost::Loopback).get_url(), "http://e2e:9000");
    assert_eq!(ApiUrl::local_with(Some(" / "), LocalHost::Loopback).get_url(), "http://127.0.0.1:3000");
    assert_eq!(ApiUrl::for_environment(ServerEnvironment::Local, None, LocalHost::Loopback).get_url(), "http://127.0.0.1:3000");
    assert_eq!(ApiUrl::local_with(None, LocalHost::AndroidEmulator).get_url(), "http://10.0.2.2:3000");
    assert_eq!(ApiUrl::get(ClientRunMode::Dev).get_url(), "https://localhost:443");
}
