//! Webhook delivery: the fixed JSON envelope, the per-delivery idempotency
//! key, and the assembled POST request.
//!
//! The envelope is `{"status":<int>,"message":<string>,"error":<string>}`.
//! A successful cycle sends status 200, the canonical string form of the
//! decoded value as the message, and an empty error; failed cycles send
//! nothing at all. The idempotency key is the decimal rendering of the
//! running cycle's delivery sequence number, so no two deliveries share a
//! key.

use vstd::prelude::*;
use vstd::string::{StringExecFns, StringSliceAdditionalSpecFns};

use crate::textfmt::{
    append_bytes, append_json_escaped, dec_bytes, json_escape, lemma_dec_bytes_injective,
    u64_to_dec,
};

verus! {

/// A fully built webhook delivery, ready for the host to POST.
pub struct WebhookRequest {
    /// The callback URL to POST to.
    pub url: String,
    /// The `Host` header value: the URL's host with the HTTPS port.
    pub host: String,
    /// The `Idempotency-Key` header value, ASCII decimal.
    pub idempotency_key: Vec<u8>,
    /// The JSON envelope body.
    pub body: Vec<u8>,
}

/// The JSON envelope for one delivery.
pub open spec fn envelope_bytes(status: u64, message: Seq<u8>, error: Seq<u8>) -> Seq<u8> {
    "{\"status\":".spec_bytes() + dec_bytes(status as nat) + ",\"message\":\"".spec_bytes()
        + json_escape(message) + "\",\"error\":\"".spec_bytes() + json_escape(error)
        + "\"}".spec_bytes()
}

/// Builds the JSON envelope, matching [`envelope_bytes`].
pub fn build_envelope(status: u64, message: &[u8], error: &[u8]) -> (r: Vec<u8>)
    ensures
        r@ == envelope_bytes(status, message@, error@),
{
    let mut out: Vec<u8> = Vec::new();
    append_bytes(&mut out, "{\"status\":".as_bytes());
    let dec = u64_to_dec(status);
    append_bytes(&mut out, dec.as_slice());
    append_bytes(&mut out, ",\"message\":\"".as_bytes());
    append_json_escaped(&mut out, message);
    append_bytes(&mut out, "\",\"error\":\"".as_bytes());
    append_json_escaped(&mut out, error);
    append_bytes(&mut out, "\"}".as_bytes());
    proof {
        assert(out@ =~= envelope_bytes(status, message@, error@));
    }
    out
}

/// The idempotency key of the delivery whose sequence number is `n`.
pub open spec fn idempotency_key(n: u64) -> Seq<u8> {
    dec_bytes(n as nat)
}

/// Builds the idempotency key, matching [`idempotency_key`].
pub fn build_idempotency_key(n: u64) -> (r: Vec<u8>)
    ensures
        r@ == idempotency_key(n),
{
    u64_to_dec(n)
}

/// Deliveries with different sequence numbers carry distinguishable
/// idempotency keys.
pub proof fn lemma_idempotency_keys_distinct(a: u64, b: u64)
    requires
        a != b,
    ensures
        idempotency_key(a) != idempotency_key(b),
{
    if idempotency_key(a) == idempotency_key(b) {
        lemma_dec_bytes_injective(a as nat, b as nat);
    }
}

/// What the `url` crate reads as the host of a URL string: a function of
/// the text alone; `None` when the text is no absolute URL or has no host.
pub uninterp spec fn host_lookup(url: Seq<char>) -> Option<Seq<char>>;

/// Relies on `url::Url::parse` and `url::Url::host_str`: parsing is a pure
/// function of the URL text, and `host_str` returns the parsed host
/// component, absent on parse failure or host-less URLs.
#[verifier::external_body]
pub(crate) fn url_host(url: &str) -> (r: Option<String>)
    ensures
        match r {
            Some(h) => host_lookup(url@) == Some(h@),
            None => host_lookup(url@) is None,
        },
{
    match url::Url::parse(url) {
        Ok(u) => match u.host_str() {
            Some(h) => Some(h.to_string()),
            None => None,
        },
        Err(_) => None,
    }
}

/// Whether an HTTP status code reports success.
pub open spec fn success_status(code: u64) -> bool {
    200 <= code < 300
}

/// Decides [`success_status`]: the host checks each outbound call's
/// response status against this before treating a delivery as made.
pub fn is_success_status(code: u64) -> (r: bool)
    ensures
        r == success_status(code),
{
    200 <= code && code < 300
}

/// A delivery that could not even be assembled.
#[derive(Clone, Copy, Debug, PartialEq, Eq, Structural)]
pub enum DispatchError {
    /// The callback URL does not parse, or has no host to address.
    BadCallbackUrl,
}

/// Assembles the webhook POST for a successful cycle: the success envelope
/// around `message`, the callback's host for the `Host` header, and the
/// delivery's idempotency key. Fails exactly when the callback URL yields
/// no host.
pub fn build_webhook_request(callback_url: &String, delivery: u64, message: &[u8]) -> (r: Result<
    WebhookRequest,
    DispatchError,
>)
    ensures
        match r {
            Ok(req) => {
                &&& host_lookup(callback_url@) is Some
                &&& req.host@ == host_lookup(callback_url@)->0 + ":443"@
                &&& req.url@ == callback_url@
                &&& req.idempotency_key@ == idempotency_key(delivery)
                &&& req.body@ == envelope_bytes(200, message@, Seq::<u8>::empty())
            },
            Err(e) => e == DispatchError::BadCallbackUrl && host_lookup(callback_url@) is None,
        },
{
    let host = match url_host(callback_url.as_str()) {
        Some(h) => h,
        None => {
            return Err(DispatchError::BadCallbackUrl);
        },
    };
    let empty: Vec<u8> = Vec::new();
    let body = build_envelope(200, message, empty.as_slice());
    Ok(
        WebhookRequest {
            url: callback_url.clone(),
            host: host.concat(":443"),
            idempotency_key: build_idempotency_key(delivery),
            body,
        },
    )
}

} // verus!
