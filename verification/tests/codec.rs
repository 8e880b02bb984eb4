use dhooks::codec::{decode_hook, encode_hook};
use dhooks::config::HookConfig;

fn sample() -> HookConfig {
    match HookConfig::new(
        5,
        String::from("https://x"),
        String::from("0xabc"),
        String::from("https://y/hook"),
    ) {
        Ok(c) => c,
        Err(_) => panic!("sample config must validate"),
    }
}

#[test]
fn round_trip_simple() {
    let c = sample();
    let bytes = encode_hook(&c);
    let back = decode_hook(bytes.as_slice()).expect("own encoding must decode");
    assert_eq!(back.rpc_endpoint, c.rpc_endpoint);
    assert_eq!(back.contract_address, c.contract_address);
    assert_eq!(back.callback_url, c.callback_url);
    assert_eq!(back.interval_seconds, c.interval_seconds);
}

#[test]
fn round_trip_non_ascii() {
    let c = HookConfig::new(
        u64::MAX,
        String::from("https://rpc.example/äöü"),
        String::from("0x00"),
        String::from("https://cb.example/путь"),
    )
    .expect("valid parameters");
    let bytes = encode_hook(&c);
    let back = decode_hook(bytes.as_slice()).expect("own encoding must decode");
    assert_eq!(back.rpc_endpoint, c.rpc_endpoint);
    assert_eq!(back.contract_address, c.contract_address);
    assert_eq!(back.callback_url, c.callback_url);
    assert_eq!(back.interval_seconds, c.interval_seconds);
}

#[test]
fn decode_rejects_wrong_version() {
    let c = sample();
    let mut bytes = encode_hook(&c);
    bytes[0] = 2;
    assert!(decode_hook(bytes.as_slice()).is_none());
}

#[test]
fn decode_rejects_truncation() {
    let c = sample();
    let bytes = encode_hook(&c);
    assert!(decode_hook(&bytes[..bytes.len() - 1]).is_none());
    assert!(decode_hook(&bytes[..5]).is_none());
    assert!(decode_hook(b"").is_none());
}

#[test]
fn decode_rejects_trailing_bytes() {
    let c = sample();
    let mut bytes = encode_hook(&c);
    bytes.push(0);
    assert!(decode_hook(bytes.as_slice()).is_none());
}

#[test]
fn decode_rejects_zero_interval_record() {
    let c = sample();
    let mut bytes = encode_hook(&c);
    // The interval sits in bytes 1..9, little endian; zero it out.
    for b in bytes.iter_mut().take(9).skip(1) {
        *b = 0;
    }
    assert!(decode_hook(bytes.as_slice()).is_none());
}

#[test]
fn decode_rejects_invalid_utf8_field() {
    let c = sample();
    let mut bytes = encode_hook(&c);
    // First field byte sits right after the version, interval and length.
    bytes[17] = 0xff;
    assert!(decode_hook(bytes.as_slice()).is_none());
}
