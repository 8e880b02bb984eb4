use dhooks::config::HookConfig;
use dhooks::store::HookStore;

fn config(interval: u64, rpc: &str, contract: &str, callback: &str) -> HookConfig {
    match HookConfig::new(
        interval,
        String::from(rpc),
        String::from(contract),
        String::from(callback),
    ) {
        Ok(c) => c,
        Err(_) => panic!("test config must validate"),
    }
}

#[test]
fn fresh_store_holds_nothing() {
    let store = HookStore::load();
    assert!(store.get().is_none());
}

#[test]
fn put_then_get_round_trips() {
    let mut store = HookStore::load();
    let c = config(5, "https://x", "0xabc", "https://y/hook");
    store.put(&c);
    let back = store.get().expect("stored hook must read back");
    assert_eq!(back.rpc_endpoint, c.rpc_endpoint);
    assert_eq!(back.contract_address, c.contract_address);
    assert_eq!(back.callback_url, c.callback_url);
    assert_eq!(back.interval_seconds, c.interval_seconds);
}

#[test]
fn put_replaces_prior_record() {
    let mut store = HookStore::load();
    store.put(&config(5, "https://x", "0xabc", "https://y/hook"));
    store.put(&config(60, "https://other", "0xdef", "https://z/hook"));
    let back = store.get().expect("stored hook must read back");
    assert_eq!(back.interval_seconds, 60);
    assert_eq!(back.rpc_endpoint, "https://other");
    assert_eq!(back.contract_address, "0xdef");
    assert_eq!(back.callback_url, "https://z/hook");
}
