use vibe_dictate::url::{health_url, websocket_url};

#[test]
fn websocket_url_has_one_asr_path() {
    assert_eq!(
        websocket_url("http://127.0.0.1:7870").unwrap(),
        "ws://127.0.0.1:7870/ws/asr"
    );
    assert_eq!(
        websocket_url("ws://127.0.0.1:7870/ws/asr/").unwrap(),
        "ws://127.0.0.1:7870/ws/asr"
    );
}

#[test]
fn secure_addresses_stay_secure() {
    assert_eq!(websocket_url("https://asr.example").unwrap(), "wss://asr.example/ws/asr");
    assert_eq!(websocket_url("wss://asr.example//").unwrap(), "wss://asr.example/ws/asr");
    assert_eq!(health_url("https://asr.example/").unwrap(), "https://asr.example/healthz");
    assert_eq!(health_url("wss://asr.example/ws/asr").unwrap(), "https://asr.example/healthz");
}

#[test]
fn other_addresses_are_refused_with_the_address_as_given() {
    for base in ["", "ftp://host/", "127.0.0.1:7870", "http://", "ws:///", "WS://host"] {
        let expected = format!("unsupported streaming server URL '{base}'");
        assert_eq!(websocket_url(base).unwrap_err().message(), expected);
        assert_eq!(health_url(base).unwrap_err().message(), expected);
    }
}

#[test]
fn a_web_address_gets_the_path_even_if_it_has_one() {
    assert_eq!(websocket_url("http://host/ws/asr").unwrap(), "ws://host/ws/asr/ws/asr");
    assert_eq!(websocket_url("ws://host/other").unwrap(), "ws://host/other/ws/asr");
}

#[test]
fn deriving_an_address_again_changes_nothing() {
    for base in ["http://host:1/x", "https://host", "ws://host", "wss://host/ws/asr///"] {
        let once = websocket_url(base).unwrap();
        assert_eq!(websocket_url(&once).unwrap(), once);
        assert_eq!(websocket_url(&format!("{base}/")).unwrap(), once);
    }
}

#[test]
fn the_health_check_lies_below_the_web_address() {
    assert_eq!(health_url("http://127.0.0.1:7870").unwrap(), "http://127.0.0.1:7870/healthz");
    assert_eq!(
        health_url("ws://127.0.0.1:7870/ws/asr").unwrap(),
        "http://127.0.0.1:7870/healthz"
    );
    assert_eq!(health_url("ws://ws/asr").unwrap(), "http://healthz");
}
