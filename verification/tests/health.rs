use vibe_dictate::config::ServerConfig;
use vibe_dictate::health::{check_response, check_status, health_probe};

fn server(base_url: &str, api_key: &str) -> ServerConfig {
    ServerConfig { base_url: base_url.to_string(), api_key: api_key.to_string() }
}

#[test]
fn a_probe_carries_the_key_as_configured() {
    let probe = health_probe(&server("ws://127.0.0.1:7870/ws/asr", "")).unwrap();
    assert_eq!(probe.url, "http://127.0.0.1:7870/healthz");
    assert_eq!(probe.bearer, None);
    let probe = health_probe(&server("https://asr.example", " key ")).unwrap();
    assert_eq!(probe.url, "https://asr.example/healthz");
    assert_eq!(probe.bearer.as_deref(), Some(" key "));
    let error = health_probe(&server("asr.example", "")).unwrap_err();
    assert_eq!(error.message(), "unsupported streaming server URL 'asr.example'");
}

#[test]
fn only_ok_is_healthy() {
    assert!(check_response(true, "200 OK".to_string()).is_ok());
    let refused = check_response(false, "503 Service Unavailable".to_string()).unwrap_err();
    assert_eq!(refused.message(), "healthz returned 503 Service Unavailable");
    assert!(check_status("ok".to_string()).is_ok());
    for status in ["", "OK", "loading"] {
        let error = check_status(status.to_string()).unwrap_err();
        assert_eq!(error.message(), format!("streaming backend status is '{status}'"));
    }
}
