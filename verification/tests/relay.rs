use dhooks::abi::{build_call_data, decode_address_reply};
use dhooks::config::ConfigError;
use dhooks::scheduler::{CycleError, Relay};
use dhooks::textfmt::bytes_to_hex;

fn configured_relay() -> Relay {
    let mut relay = Relay::load();
    relay
        .configure(
            60,
            String::from("https://rpc.example"),
            String::from("0x1111"),
            String::from("https://cb.example/hook"),
        )
        .expect("valid parameters");
    relay
}

fn expected_calldata() -> Vec<u8> {
    let mut expected = ethers_core::utils::keccak256(b"icphook(bytes)")[..4].to_vec();
    expected.extend_from_slice(&[0u8; 31]);
    expected.push(32); // offset of the dynamic argument
    expected.extend_from_slice(&[0u8; 31]);
    expected.push(5); // byte length of "hello"
    expected.extend_from_slice(b"hello");
    expected.extend_from_slice(&[0u8; 27]); // zero padding to a word
    expected
}

fn reply_body_for(word_hex: &str) -> Vec<u8> {
    format!("{{\"jsonrpc\":\"2.0\",\"id\":1,\"result\":\"{}\"}}", word_hex).into_bytes()
}

fn address_word() -> String {
    // One 32-byte return word: 12 zero bytes, then 20 bytes of 0x11.
    let mut w = String::from("0x");
    w.push_str(&"00".repeat(12));
    w.push_str(&"11".repeat(20));
    w
}

#[test]
fn calldata_matches_selector_and_encoding() {
    let calldata = build_call_data("icphook(bytes)", b"hello");
    assert_eq!(calldata, expected_calldata());
}

#[test]
fn recover_rearms_from_store() {
    let mut relay = Relay::load();
    assert_eq!(relay.recover().err(), Some(CycleError::NotConfigured));
    relay
        .configure(
            5,
            String::from("https://x"),
            String::from("0xabc"),
            String::from("https://y/hook"),
        )
        .expect("valid parameters");
    // The recovery path re-reads the persisted hook; the caller supplies
    // nothing.
    assert_eq!(relay.recover().ok(), Some(5));
}

#[test]
fn tick_without_config_starts_nothing() {
    let mut relay = Relay::load();
    assert!(relay.tick().is_none());
    assert_eq!(relay.get_counter(), 0);
}

#[test]
fn one_cycle_per_tick() {
    let mut relay = configured_relay();
    assert_eq!(relay.get_counter(), 0);
    let req = relay.tick().expect("configured relay must start a cycle");
    assert_eq!(req.url, "https://rpc.example");
    assert_eq!(relay.get_counter(), 1);
    relay.rpc_failed();
    let _ = relay.tick().expect("next tick starts the next cycle");
    assert_eq!(relay.get_counter(), 2);
}

#[test]
fn ticks_coalesce_while_in_flight() {
    let mut relay = configured_relay();
    let _ = relay.tick().expect("cycle starts");
    assert!(relay.tick().is_none());
    assert_eq!(relay.get_counter(), 1);
    relay.dispatch_done();
    let _ = relay.tick().expect("idle again, cycle starts");
    assert_eq!(relay.get_counter(), 2);
}

#[test]
fn rpc_request_body_exact() {
    let mut relay = configured_relay();
    let req = relay.tick().expect("cycle starts");
    let hex: String = String::from_utf8(bytes_to_hex(&expected_calldata())).unwrap();
    let expected = format!(
        "{{\"jsonrpc\":\"2.0\",\"id\":1,\"method\":\"eth_call\",\"params\":[{{\"to\":\"0x1111\",\"data\":\"0x{}\"}},\"latest\"]}}",
        hex
    );
    assert_eq!(req.body, expected.into_bytes());
}

#[test]
fn rpc_failure_sends_no_webhook() {
    let mut relay = configured_relay();
    let _ = relay.tick().expect("cycle starts");
    // Transport failure: the cycle completes with no webhook built and no
    // panic; the relay is idle again.
    relay.rpc_failed();
    assert_eq!(relay.get_counter(), 1);
    assert!(relay.tick().is_some());
}

#[test]
fn malformed_reply_sends_no_webhook() {
    let mut relay = configured_relay();
    let _ = relay.tick().expect("cycle starts");
    let r = relay.rpc_reply(b"not json at all");
    assert_eq!(r.err(), Some(CycleError::MalformedReply));
    let _ = relay.tick().expect("cycle over, next tick runs");
}

#[test]
fn reply_without_result_member_fails_cycle() {
    let mut relay = configured_relay();
    let _ = relay.tick().expect("cycle starts");
    let r = relay.rpc_reply(b"{\"jsonrpc\":\"2.0\",\"id\":1,\"error\":\"boom\"}");
    assert_eq!(r.err(), Some(CycleError::MalformedReply));
}

#[test]
fn wrong_shape_result_fails_cycle() {
    let mut relay = configured_relay();
    let _ = relay.tick().expect("cycle starts");
    let r = relay.rpc_reply(b"{\"jsonrpc\":\"2.0\",\"id\":1,\"result\":\"0x11\"}");
    assert_eq!(r.err(), Some(CycleError::MalformedReply));
}

#[test]
fn reply_out_of_cycle_is_rejected() {
    let mut relay = configured_relay();
    let r = relay.rpc_reply(reply_body_for(&address_word()).as_slice());
    assert_eq!(r.err(), Some(CycleError::NotInCycle));
    assert_eq!(relay.get_counter(), 0);
}

#[test]
fn end_to_end_delivery() {
    let mut relay = configured_relay();
    let _ = relay.tick().expect("cycle starts");
    let req = relay
        .rpc_reply(reply_body_for(&address_word()).as_slice())
        .expect("well-formed reply must yield a delivery");
    assert_eq!(req.url, "https://cb.example/hook");
    assert_eq!(req.host, "cb.example:443");
    assert_eq!(req.idempotency_key, b"1".to_vec());
    let expected_msg = format!("0x{}", "11".repeat(20));
    let expected_body =
        format!("{{\"status\":200,\"message\":\"{}\",\"error\":\"\"}}", expected_msg);
    assert_eq!(req.body, expected_body.into_bytes());
    relay.dispatch_done();
    assert_eq!(relay.get_counter(), 1);
}

#[test]
fn consecutive_cycles_use_distinct_keys() {
    let mut relay = configured_relay();
    let _ = relay.tick().expect("first cycle");
    let first = relay
        .rpc_reply(reply_body_for(&address_word()).as_slice())
        .expect("delivery");
    relay.dispatch_done();
    let _ = relay.tick().expect("second cycle");
    let second = relay
        .rpc_reply(reply_body_for(&address_word()).as_slice())
        .expect("delivery");
    relay.dispatch_done();
    assert_ne!(first.idempotency_key, second.idempotency_key);
    assert_eq!(first.idempotency_key, b"1".to_vec());
    assert_eq!(second.idempotency_key, b"2".to_vec());
}

#[test]
fn transport_failure_is_reported_as_rpc_failed() {
    let mut relay = configured_relay();
    let _ = relay.tick().expect("cycle starts");
    let r = relay.rpc_result(None);
    assert_eq!(r.err(), Some(CycleError::RpcFailed));
    assert_eq!(relay.get_counter(), 1);
}

#[test]
fn configure_rejects_unparsable_callback_url() {
    let mut relay = Relay::load();
    let r = relay.configure(
        60,
        String::from("https://rpc.example"),
        String::from("0x1111"),
        String::from("not a url"),
    );
    assert_eq!(r.err(), Some(ConfigError::UnparsableCallbackUrl));
    // Nothing was persisted: a tick still starts no cycle.
    assert!(relay.tick().is_none());
    assert_eq!(relay.recover().err(), Some(CycleError::NotConfigured));
}

#[test]
fn trigger_runs_a_cycle_without_counting() {
    let mut relay = configured_relay();
    let req = relay.trigger().expect("manual trigger starts a cycle");
    assert_eq!(req.url, "https://rpc.example");
    // The tick counter belongs to the scheduler; a manual run leaves it.
    assert_eq!(relay.get_counter(), 0);
    let delivery = relay
        .rpc_reply(reply_body_for(&address_word()).as_slice())
        .expect("delivery");
    assert_eq!(delivery.idempotency_key, b"1".to_vec());
    relay.dispatch_done();
    assert_eq!(relay.get_counter(), 0);
}

#[test]
fn trigger_unconfigured_surfaces_not_configured() {
    let mut relay = Relay::load();
    assert_eq!(relay.trigger().err(), Some(CycleError::NotConfigured));
}

#[test]
fn trigger_while_in_flight_reports_busy() {
    let mut relay = configured_relay();
    let _ = relay.tick().expect("cycle starts");
    assert_eq!(relay.trigger().err(), Some(CycleError::Busy));
    assert_eq!(relay.get_counter(), 1);
}

#[test]
fn manual_and_ticked_cycles_share_the_key_sequence() {
    let mut relay = configured_relay();
    let _ = relay.tick().expect("first cycle");
    let first = relay
        .rpc_reply(reply_body_for(&address_word()).as_slice())
        .expect("delivery");
    relay.dispatch_done();
    let _ = relay.trigger().expect("manual cycle");
    let second = relay
        .rpc_reply(reply_body_for(&address_word()).as_slice())
        .expect("delivery");
    relay.dispatch_done();
    assert_eq!(first.idempotency_key, b"1".to_vec());
    assert_eq!(second.idempotency_key, b"2".to_vec());
    assert_eq!(relay.get_counter(), 1);
}

#[test]
fn five_ticks_five_cycles() {
    let mut relay = configured_relay();
    for expected in 1..=5u64 {
        let _ = relay.tick().expect("cycle starts");
        assert_eq!(relay.get_counter(), expected);
        relay.rpc_failed();
    }
}

#[test]
fn decode_address_reply_exact() {
    let word = address_word();
    let msg = decode_address_reply(word.as_bytes()).expect("well-formed word");
    assert_eq!(msg, format!("0x{}", "11".repeat(20)).into_bytes());
    // Upper-case digits canonicalize to lower case.
    let upper = word.to_uppercase().replace("0X", "0x");
    let msg2 = decode_address_reply(upper.as_bytes()).expect("well-formed word");
    assert_eq!(msg2, msg);
    // Wrong length and non-hex digits are decode mismatches.
    assert!(decode_address_reply(b"0x11").is_none());
    assert!(decode_address_reply("0x".repeat(33).as_bytes()).is_none());
    let mut bad = word.into_bytes();
    bad[10] = b'g';
    assert!(decode_address_reply(bad.as_slice()).is_none());
}
