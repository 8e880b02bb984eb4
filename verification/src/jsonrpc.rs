//! The JSON-RPC side of a contract call: building the `eth_call`-equivalent
//! request body, and pulling the hex result string out of the reply.
//!
//! The request body is framed byte by byte here, with the contract address
//! JSON-escaped and the call data rendered in hex, so its exact content is
//! part of the contract. The reply is general JSON, which `serde_json`
//! parses behind one trusted wrapper; [`rpc_result_of`] names what the
//! extraction reads out of a given body, and what the relay does with that
//! string is pinned in [`crate::abi::decode_address_reply`] and the cycle
//! machine, which take it as an argument.

use vstd::prelude::*;
use vstd::string::StringSliceAdditionalSpecFns;

use crate::textfmt::{append_bytes, append_json_escaped, bytes_to_hex, hex_bytes, json_escape};

verus! {

/// A fully built JSON-RPC call, ready for the host to POST.
pub struct RpcRequest {
    /// The JSON-RPC provider to send to.
    pub url: String,
    /// The request body.
    pub body: Vec<u8>,
}

/// The request body for one read of the contract: a JSON-RPC `eth_call`
/// with the target address and the hex-rendered call data.
pub open spec fn rpc_request_body(addr_bytes: Seq<u8>, calldata: Seq<u8>) -> Seq<u8> {
    "{\"jsonrpc\":\"2.0\",\"id\":1,\"method\":\"eth_call\",\"params\":[{\"to\":\"".spec_bytes()
        + json_escape(addr_bytes) + "\",\"data\":\"0x".spec_bytes() + hex_bytes(calldata)
        + "\"},\"latest\"]}".spec_bytes()
}

/// Builds the request body, matching [`rpc_request_body`] applied to the
/// address's UTF-8 bytes.
pub fn build_rpc_request_body(contract_address: &str, calldata: &[u8]) -> (r: Vec<u8>)
    ensures
        r@ == rpc_request_body(contract_address.spec_bytes(), calldata@),
{
    let mut out: Vec<u8> = Vec::new();
    append_bytes(
        &mut out,
        "{\"jsonrpc\":\"2.0\",\"id\":1,\"method\":\"eth_call\",\"params\":[{\"to\":\"".as_bytes(),
    );
    append_json_escaped(&mut out, contract_address.as_bytes());
    append_bytes(&mut out, "\",\"data\":\"0x".as_bytes());
    let hex = bytes_to_hex(calldata);
    append_bytes(&mut out, hex.as_slice());
    append_bytes(&mut out, "\"},\"latest\"]}".as_bytes());
    proof {
        assert(out@ =~= rpc_request_body(contract_address.spec_bytes(), calldata@));
    }
    out
}

/// What JSON-RPC extraction reads out of a reply body: the string under
/// the `result` member when the body is JSON whose `result` is a string,
/// nothing on any other shape. A function of the reply bytes alone.
pub uninterp spec fn rpc_result_of(body: Seq<u8>) -> Option<Seq<char>>;

/// Relies on `serde_json::from_slice::<Value>`, `Value::get` and
/// `Value::as_str`: parsing is a pure function of the input bytes, so what
/// this returns — the reply's `result` string, or `None` on any other
/// shape — depends on the body alone, which [`rpc_result_of`] names.
#[verifier::external_body]
pub(crate) fn extract_rpc_result(body: &[u8]) -> (r: Option<String>)
    ensures
        match r {
            Some(s) => rpc_result_of(body@) == Some(s@),
            None => rpc_result_of(body@) is None,
        },
{
    let v: serde_json::Value = serde_json::from_slice(body).ok()?;
    let s = v.get("result")?.as_str()?;
    Some(s.to_string())
}

} // verus!
