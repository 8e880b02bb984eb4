use dhooks::config::{ConfigError, HookConfig};
use dhooks::textfmt::{bytes_to_hex, u64_to_dec};
use dhooks::webhook::{build_envelope, build_idempotency_key};

#[test]
fn config_accepts_valid_parameters() {
    let c = HookConfig::new(
        60,
        String::from("https://rpc.example"),
        String::from("0x1111"),
        String::from("https://cb.example/hook"),
    )
    .expect("valid parameters");
    assert_eq!(c.interval_seconds, 60);
    assert_eq!(c.rpc_endpoint, "https://rpc.example");
    assert_eq!(c.contract_address, "0x1111");
    assert_eq!(c.callback_url, "https://cb.example/hook");
}

#[test]
fn config_rejects_zero_interval() {
    let r = HookConfig::new(0, String::from("a"), String::from("b"), String::from("c"));
    assert_eq!(r.err(), Some(ConfigError::ZeroInterval));
}

#[test]
fn config_rejects_empty_rpc_endpoint() {
    let r = HookConfig::new(1, String::new(), String::from("b"), String::from("c"));
    assert_eq!(r.err(), Some(ConfigError::EmptyRpcEndpoint));
}

#[test]
fn config_rejects_empty_contract_address() {
    let r = HookConfig::new(1, String::from("a"), String::new(), String::from("c"));
    assert_eq!(r.err(), Some(ConfigError::EmptyContractAddress));
}

#[test]
fn config_rejects_empty_callback_url() {
    let r = HookConfig::new(1, String::from("a"), String::from("b"), String::new());
    assert_eq!(r.err(), Some(ConfigError::EmptyCallbackUrl));
}

#[test]
fn decimal_rendering_exact() {
    assert_eq!(u64_to_dec(0), b"0".to_vec());
    assert_eq!(u64_to_dec(7), b"7".to_vec());
    assert_eq!(u64_to_dec(1234), b"1234".to_vec());
    assert_eq!(u64_to_dec(u64::MAX), b"18446744073709551615".to_vec());
}

#[test]
fn hex_rendering_exact() {
    assert_eq!(bytes_to_hex(&[]), b"".to_vec());
    assert_eq!(bytes_to_hex(&[0x00, 0xde, 0xad, 0x0f]), b"00dead0f".to_vec());
}

#[test]
fn envelope_exact_bytes() {
    let body = build_envelope(200, b"0x11", b"");
    assert_eq!(body, b"{\"status\":200,\"message\":\"0x11\",\"error\":\"\"}".to_vec());
}

#[test]
fn envelope_escapes_message() {
    let body = build_envelope(500, b"a\"b\\c\n", b"boom");
    assert_eq!(
        body,
        b"{\"status\":500,\"message\":\"a\\\"b\\\\c\\u000a\",\"error\":\"boom\"}".to_vec()
    );
}

#[test]
fn idempotency_keys_render_and_differ() {
    assert_eq!(build_idempotency_key(1), b"1".to_vec());
    assert_eq!(build_idempotency_key(2), b"2".to_vec());
    assert_ne!(build_idempotency_key(1), build_idempotency_key(2));
}
