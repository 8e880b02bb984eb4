//! The relay's cycle state machine.
//!
//! The host owns the interval timer and the two outbound calls; this module
//! owns every decision between them. One cycle is: tick → build the
//! contract call → (host sends it) → decode the reply and build the webhook
//! POST → (host delivers it) → done. The host feeds each outcome back:
//! [`Relay::tick`] (or [`Relay::trigger`] for a manual run),
//! [`Relay::rpc_reply`] (or [`Relay::rpc_failed`]), then
//! [`Relay::dispatch_done`].
//!
//! Chosen policies, where the design leaves room:
//! - The cycle counter counts scheduler ticks that started a cycle; a
//!   manual [`Relay::trigger`] runs the same cycle without touching it.
//! - Every started cycle, ticked or manual, advances a separate delivery
//!   sequence, which feeds the idempotency key: no two deliveries share a
//!   key. The sequence saturates at its maximum, which no process reaches.
//! - Overlap is prevented by coalescing: a tick that arrives while a cycle
//!   is still in flight starts nothing.
//! - Failed cycles send no webhook at all; the next tick is the only retry.

use vstd::prelude::*;
use vstd::string::StringSliceAdditionalSpecFns;
use vstd::utf8::encode_utf8;

use crate::abi::{build_call_data, call_data, canonical_address, decode_address_reply,
    reply_word_ok};
use crate::config::{ConfigError, HookConfig, HookModel};
use crate::jsonrpc::{build_rpc_request_body, extract_rpc_result, rpc_request_body, rpc_result_of,
    RpcRequest};
use crate::store::HookStore;
use crate::webhook::{build_webhook_request, envelope_bytes, host_lookup, idempotency_key,
    url_host, DispatchError, WebhookRequest};

verus! {

/// Why a cycle step produced no webhook delivery.
#[derive(Clone, Copy, Debug, PartialEq, Eq, Structural)]
pub enum CycleError {
    /// No hook has ever been configured.
    NotConfigured,
    /// A cycle was already in flight, so none was started.
    Busy,
    /// A reply or failure arrived while no cycle was in flight.
    NotInCycle,
    /// The RPC transport failed; the cycle is closed without a delivery.
    RpcFailed,
    /// The RPC reply was not the expected shape; closed without a delivery.
    MalformedReply,
    /// The callback URL yields no host to address; closed undelivered.
    /// Setup validates the URL, so this guards only records that reach the
    /// store some other way.
    BadCallbackUrl,
}

/// The signature of the one contract method the relay polls.
pub open spec fn method_signature() -> Seq<char> {
    "icphook(bytes)"@
}

/// The fixed probe payload handed to the contract method.
pub open spec fn probe_payload() -> Seq<u8> {
    "hello".spec_bytes()
}

/// The call data of the probe call.
pub open spec fn probe_calldata() -> Seq<u8> {
    call_data(method_signature(), probe_payload())
}

/// The relay: the durable config store, the tick counter, the delivery
/// sequence, and the in-flight guard that keeps cycles from overlapping.
pub struct Relay {
    store: HookStore,
    cycles: u64,
    seq: u64,
    in_flight: bool,
}

impl Relay {
    /// Cycles started by scheduler ticks (manual triggers not included).
    pub closed spec fn counter(self) -> u64 {
        self.cycles
    }

    /// Started cycles of any kind; the running cycle's value keys its
    /// delivery.
    pub closed spec fn delivery_seq(self) -> u64 {
        self.seq
    }

    /// Whether a cycle is in flight: between its start and its
    /// [`Relay::rpc_failed`], failed decode, or [`Relay::dispatch_done`].
    pub closed spec fn busy(self) -> bool {
        self.in_flight
    }

    /// The configuration the durable store holds.
    pub closed spec fn hook(self) -> Option<HookModel> {
        self.store.hook()
    }

    /// Attaches to the host's durable memory. Counter and delivery
    /// sequence start at zero and nothing is in flight; the store holds
    /// whatever was persisted before, so a restarted relay finds its
    /// configuration again.
    pub fn load() -> (r: Relay)
        ensures
            r.counter() == 0,
            r.delivery_seq() == 0,
            !r.busy(),
    {
        Relay { store: HookStore::load(), cycles: 0, seq: 0, in_flight: false }
    }

    /// Validates the four setup parameters and persists them as the hook,
    /// replacing any prior one. Returns the interval the host must arm its
    /// timer with. Succeeds exactly on valid parameters whose callback URL
    /// yields a host; on rejection the stored hook is untouched.
    pub fn configure(
        &mut self,
        interval_seconds: u64,
        rpc_endpoint: String,
        contract_address: String,
        callback_url: String,
    ) -> (r: Result<u64, ConfigError>)
        ensures
            final(self).counter() == old(self).counter(),
            final(self).delivery_seq() == old(self).delivery_seq(),
            final(self).busy() == old(self).busy(),
            match r {
                Ok(iv) => {
                    &&& iv == interval_seconds
                    &&& final(self).hook() == Some(
                        HookModel {
                            rpc_endpoint: rpc_endpoint@,
                            contract_address: contract_address@,
                            callback_url: callback_url@,
                            interval_seconds,
                        },
                    )
                },
                Err(e) => final(self).hook() == old(self).hook() && match e {
                    ConfigError::ZeroInterval => interval_seconds == 0,
                    ConfigError::EmptyRpcEndpoint => interval_seconds > 0 && rpc_endpoint@.len()
                        == 0,
                    ConfigError::EmptyContractAddress => {
                        &&& interval_seconds > 0
                        &&& rpc_endpoint@.len() > 0
                        &&& contract_address@.len() == 0
                    },
                    ConfigError::EmptyCallbackUrl => {
                        &&& interval_seconds > 0
                        &&& rpc_endpoint@.len() > 0
                        &&& contract_address@.len() > 0
                        &&& callback_url@.len() == 0
                    },
                    ConfigError::UnparsableCallbackUrl => {
                        &&& interval_seconds > 0
                        &&& rpc_endpoint@.len() > 0
                        &&& contract_address@.len() > 0
                        &&& callback_url@.len() > 0
                        &&& host_lookup(callback_url@) is None
                    },
                },
            },
            r is Ok <==> (interval_seconds > 0 && rpc_endpoint@.len() > 0
                && contract_address@.len() > 0 && callback_url@.len() > 0 && host_lookup(
                callback_url@,
            ) is Some),
    {
        match HookConfig::new(interval_seconds, rpc_endpoint, contract_address, callback_url) {
            Ok(c) => {
                if url_host(c.callback_url.as_str()).is_none() {
                    return Err(ConfigError::UnparsableCallbackUrl);
                }
                let iv = c.interval_seconds;
                self.store.put(&c);
                Ok(iv)
            },
            Err(e) => Err(e),
        }
    }

    /// The restart path: re-reads the persisted hook and returns the
    /// interval to re-arm the timer with, without the caller re-supplying
    /// any parameter. Fails exactly when nothing was ever configured.
    pub fn recover(&self) -> (r: Result<u64, CycleError>)
        ensures
            match r {
                Ok(iv) => self.hook() is Some && iv == self.hook()->0.interval_seconds,
                Err(e) => e == CycleError::NotConfigured && self.hook() is None,
            },
    {
        match self.store.get() {
            Some(c) => Ok(c.interval_seconds),
            None => Err(CycleError::NotConfigured),
        }
    }

    /// Read-only view of the cycle counter, usable at any time.
    pub fn get_counter(&self) -> (r: u64)
        ensures
            r == self.counter(),
    {
        self.cycles
    }

    /// Starts one cycle without touching the tick counter: the manual
    /// trigger. Surfaces exactly why nothing started — a cycle already in
    /// flight, or no hook configured; otherwise the guard is set, the
    /// delivery sequence advances, and the probe call is handed out.
    pub fn trigger(&mut self) -> (r: Result<RpcRequest, CycleError>)
        ensures
            final(self).hook() == old(self).hook(),
            final(self).counter() == old(self).counter(),
            old(self).busy() ==> {
                &&& r == Err::<RpcRequest, CycleError>(CycleError::Busy)
                &&& final(self).busy()
                &&& final(self).delivery_seq() == old(self).delivery_seq()
            },
            !old(self).busy() && old(self).hook() is None ==> {
                &&& r == Err::<RpcRequest, CycleError>(CycleError::NotConfigured)
                &&& !final(self).busy()
                &&& final(self).delivery_seq() == old(self).delivery_seq()
            },
            !old(self).busy() && old(self).hook() is Some ==> {
                &&& final(self).busy()
                &&& final(self).delivery_seq() == if old(self).delivery_seq() < u64::MAX {
                    old(self).delivery_seq() + 1
                } else {
                    old(self).delivery_seq() as int
                }
                &&& r matches Ok(req) && req.url@ == old(self).hook()->0.rpc_endpoint
                    && req.body@ == rpc_request_body(
                    encode_utf8(old(self).hook()->0.contract_address),
                    probe_calldata(),
                )
            },
    {
        if self.in_flight {
            return Err(CycleError::Busy);
        }
        let cfg = match self.store.get() {
            Some(c) => c,
            None => {
                return Err(CycleError::NotConfigured);
            },
        };
        let calldata = build_call_data("icphook(bytes)", "hello".as_bytes());
        let body = build_rpc_request_body(cfg.contract_address.as_str(), calldata.as_slice());
        if self.seq < u64::MAX {
            self.seq = self.seq + 1;
        }
        self.in_flight = true;
        Ok(RpcRequest { url: cfg.rpc_endpoint, body })
    }

    /// One timer tick. Starts exactly one cycle — counter up by one, guard
    /// set, the probe call built from the stored hook — unless a cycle is
    /// already in flight (the tick coalesces away) or no hook is
    /// configured; then nothing changes and there is nothing to send.
    pub fn tick(&mut self) -> (r: Option<RpcRequest>)
        requires
            old(self).counter() < u64::MAX,
        ensures
            final(self).hook() == old(self).hook(),
            old(self).busy() ==> {
                &&& r is None
                &&& final(self).counter() == old(self).counter()
                &&& final(self).delivery_seq() == old(self).delivery_seq()
                &&& final(self).busy()
            },
            !old(self).busy() && old(self).hook() is None ==> {
                &&& r is None
                &&& final(self).counter() == old(self).counter()
                &&& final(self).delivery_seq() == old(self).delivery_seq()
                &&& !final(self).busy()
            },
            !old(self).busy() && old(self).hook() is Some ==> {
                &&& final(self).counter() == old(self).counter() + 1
                &&& final(self).busy()
                &&& final(self).delivery_seq() == if old(self).delivery_seq() < u64::MAX {
                    old(self).delivery_seq() + 1
                } else {
                    old(self).delivery_seq() as int
                }
                &&& r matches Some(req) && req.url@ == old(self).hook()->0.rpc_endpoint
                    && req.body@ == rpc_request_body(
                    encode_utf8(old(self).hook()->0.contract_address),
                    probe_calldata(),
                )
            },
    {
        match self.trigger() {
            Ok(req) => {
                self.cycles = self.cycles + 1;
                Some(req)
            },
            Err(_) => None,
        }
    }

    /// The cycle's decision on the extracted RPC result string: `None`
    /// closes the cycle as failed; a string is decoded and, if well formed,
    /// becomes the webhook delivery for this cycle. Exactly the error cases
    /// below close the cycle without a delivery; no failure escapes as a
    /// panic.
    pub fn rpc_result(&mut self, result: Option<&String>) -> (r: Result<
        WebhookRequest,
        CycleError,
    >)
        ensures
            final(self).hook() == old(self).hook(),
            final(self).counter() == old(self).counter(),
            final(self).delivery_seq() == old(self).delivery_seq(),
            !old(self).busy() ==> r == Err::<WebhookRequest, CycleError>(CycleError::NotInCycle)
                && final(self).busy() == old(self).busy(),
            old(self).busy() ==> match result {
                None => r == Err::<WebhookRequest, CycleError>(CycleError::RpcFailed)
                    && !final(self).busy(),
                Some(s) => {
                    let bytes = encode_utf8(s@);
                    if old(self).hook() is None {
                        r == Err::<WebhookRequest, CycleError>(CycleError::NotConfigured)
                            && !final(self).busy()
                    } else if !reply_word_ok(bytes) {
                        r == Err::<WebhookRequest, CycleError>(CycleError::MalformedReply)
                            && !final(self).busy()
                    } else if host_lookup(old(self).hook()->0.callback_url) is None {
                        r == Err::<WebhookRequest, CycleError>(CycleError::BadCallbackUrl)
                            && !final(self).busy()
                    } else {
                        &&& final(self).busy()
                        &&& r matches Ok(req)
                        &&& req.url@ == old(self).hook()->0.callback_url
                        &&& req.host@ == host_lookup(old(self).hook()->0.callback_url)->0
                            + ":443"@
                        &&& req.idempotency_key@ == idempotency_key(old(self).delivery_seq())
                        &&& req.body@ == envelope_bytes(
                            200,
                            canonical_address(bytes),
                            Seq::<u8>::empty(),
                        )
                    }
                },
            },
    {
        if !self.in_flight {
            return Err(CycleError::NotInCycle);
        }
        let s = match result {
            Some(s) => s,
            None => {
                self.in_flight = false;
                return Err(CycleError::RpcFailed);
            },
        };
        let cfg = match self.store.get() {
            Some(c) => c,
            None => {
                self.in_flight = false;
                return Err(CycleError::NotConfigured);
            },
        };
        let msg = match decode_address_reply(s.as_str().as_bytes()) {
            Some(m) => m,
            None => {
                self.in_flight = false;
                return Err(CycleError::MalformedReply);
            },
        };
        match build_webhook_request(&cfg.callback_url, self.seq, msg.as_slice()) {
            Ok(req) => Ok(req),
            Err(DispatchError::BadCallbackUrl) => {
                self.in_flight = false;
                Err(CycleError::BadCallbackUrl)
            },
        }
    }

    /// Feeds a raw RPC reply body through JSON-RPC extraction and then
    /// [`Relay::rpc_result`]: the named extraction result decides, and
    /// each case below is owed exactly as in [`Relay::rpc_result`].
    pub fn rpc_reply(&mut self, body: &[u8]) -> (r: Result<WebhookRequest, CycleError>)
        ensures
            final(self).hook() == old(self).hook(),
            final(self).counter() == old(self).counter(),
            final(self).delivery_seq() == old(self).delivery_seq(),
            !old(self).busy() ==> r == Err::<WebhookRequest, CycleError>(CycleError::NotInCycle)
                && final(self).busy() == old(self).busy(),
            old(self).busy() ==> match rpc_result_of(body@) {
                None => r == Err::<WebhookRequest, CycleError>(CycleError::MalformedReply)
                    && !final(self).busy(),
                Some(s) => {
                    let bytes = encode_utf8(s);
                    if old(self).hook() is None {
                        r == Err::<WebhookRequest, CycleError>(CycleError::NotConfigured)
                            && !final(self).busy()
                    } else if !reply_word_ok(bytes) {
                        r == Err::<WebhookRequest, CycleError>(CycleError::MalformedReply)
                            && !final(self).busy()
                    } else if host_lookup(old(self).hook()->0.callback_url) is None {
                        r == Err::<WebhookRequest, CycleError>(CycleError::BadCallbackUrl)
                            && !final(self).busy()
                    } else {
                        &&& final(self).busy()
                        &&& r matches Ok(req)
                        &&& req.url@ == old(self).hook()->0.callback_url
                        &&& req.host@ == host_lookup(old(self).hook()->0.callback_url)->0
                            + ":443"@
                        &&& req.idempotency_key@ == idempotency_key(old(self).delivery_seq())
                        &&& req.body@ == envelope_bytes(
                            200,
                            canonical_address(bytes),
                            Seq::<u8>::empty(),
                        )
                    }
                },
            },
    {
        match extract_rpc_result(body) {
            Some(s) => self.rpc_result(Some(&s)),
            None => {
                // A reply arrived but is no JSON-RPC result: a malformed
                // response, not a transport failure.
                if !self.in_flight {
                    return Err(CycleError::NotInCycle);
                }
                self.in_flight = false;
                Err(CycleError::MalformedReply)
            },
        }
    }

    /// The RPC transport failed outright: the cycle is closed, no webhook
    /// is built or delivered, and nothing else changes — the next tick is
    /// the retry.
    pub fn rpc_failed(&mut self)
        ensures
            final(self).hook() == old(self).hook(),
            final(self).counter() == old(self).counter(),
            final(self).delivery_seq() == old(self).delivery_seq(),
            !final(self).busy(),
    {
        let _ = self.rpc_result(None);
    }

    /// The host finished (or gave up on) delivering the webhook: the cycle
    /// is over either way, and the relay is idle again.
    pub fn dispatch_done(&mut self)
        ensures
            final(self).hook() == old(self).hook(),
            final(self).counter() == old(self).counter(),
            final(self).delivery_seq() == old(self).delivery_seq(),
            !final(self).busy(),
    {
        self.in_flight = false;
    }
}

} // verus!
