//! The byte codec for the persisted hook record.
//!
//! The durable store holds plain bytes, so the record is laid out in a
//! stable, versioned format: a version tag, the interval as eight
//! little-endian bytes, then the three string fields, each as an 8-byte
//! little-endian byte count followed by its UTF-8 bytes.
//!
//! [`parse_hook`] is the specification-level reader of that format;
//! [`decode_hook`] returns exactly what it says, and
//! [`lemma_hook_round_trip`] states that every valid configuration survives
//! the trip through the store unchanged.

use vstd::prelude::*;
use vstd::string::StrSliceExecFns;
use vstd::utf8::{
    decode_utf8, encode_utf8, encode_utf8_decode_utf8, encode_utf8_valid_utf8, valid_utf8,
};

use crate::config::{HookConfig, HookModel};
use crate::textfmt::{append_bytes, copy_range};

verus! {

/// Version tag leading every persisted record.
pub const FORMAT_VERSION: u8 = 1;

/// The eight little-endian bytes of `n`.
pub open spec fn le8(n: u64) -> Seq<u8> {
    seq![
        (n & 0xff) as u8,
        ((n >> 8) & 0xff) as u8,
        ((n >> 16) & 0xff) as u8,
        ((n >> 24) & 0xff) as u8,
        ((n >> 32) & 0xff) as u8,
        ((n >> 40) & 0xff) as u8,
        ((n >> 48) & 0xff) as u8,
        ((n >> 56) & 0xff) as u8,
    ]
}

/// The number read back from eight little-endian bytes.
pub open spec fn le8_val(s: Seq<u8>) -> u64
    recommends
        s.len() == 8,
{
    (s[0] as u64) | ((s[1] as u64) << 8) | ((s[2] as u64) << 16) | ((s[3] as u64) << 24) | ((
    s[4] as u64) << 32) | ((s[5] as u64) << 40) | ((s[6] as u64) << 48) | ((s[7] as u64) << 56)
}

/// Reading the little-endian bytes of `n` gives back `n`.
pub proof fn lemma_le8_val(n: u64)
    ensures
        le8_val(le8(n)) == n,
{
    assert((((n & 0xff) as u8) as u64) | ((((n >> 8) & 0xff) as u8) as u64) << 8 | ((((n >> 16)
        & 0xff) as u8) as u64) << 16 | ((((n >> 24) & 0xff) as u8) as u64) << 24 | ((((n >> 32)
        & 0xff) as u8) as u64) << 32 | ((((n >> 40) & 0xff) as u8) as u64) << 40 | ((((n >> 48)
        & 0xff) as u8) as u64) << 48 | ((((n >> 56) & 0xff) as u8) as u64) << 56 == n)
        by (bit_vector);
}

/// One length-prefixed field of the record.
pub open spec fn segment_bytes(field: Seq<char>) -> Seq<u8> {
    le8(encode_utf8(field).len() as u64) + encode_utf8(field)
}

/// The full persisted record for a configuration.
pub open spec fn hook_bytes(m: HookModel) -> Seq<u8> {
    seq![FORMAT_VERSION] + le8(m.interval_seconds) + segment_bytes(m.rpc_endpoint)
        + segment_bytes(m.contract_address) + segment_bytes(m.callback_url)
}

/// Reads one length-prefixed segment starting at `pos`: the raw bytes and
/// the position just past them.
pub open spec fn parse_segment(s: Seq<u8>, pos: int) -> Option<(Seq<u8>, int)> {
    if pos + 8 <= s.len() {
        let l = le8_val(s.subrange(pos, pos + 8)) as int;
        if pos + 8 + l <= s.len() {
            Some((s.subrange(pos + 8, pos + 8 + l), pos + 8 + l))
        } else {
            None
        }
    } else {
        None
    }
}

/// Reads a whole record. `Some` exactly on the byte strings that are the
/// encoding of some valid configuration, and then returns that
/// configuration.
pub open spec fn parse_hook(s: Seq<u8>) -> Option<HookModel> {
    if s.len() >= 9 && s[0] == FORMAT_VERSION {
        match parse_segment(s, 9) {
            Some((b1, p1)) => match parse_segment(s, p1) {
                Some((b2, p2)) => match parse_segment(s, p2) {
                    Some((b3, p3)) => {
                        if p3 == s.len() && valid_utf8(b1) && valid_utf8(b2) && valid_utf8(b3) {
                            let m = HookModel {
                                rpc_endpoint: decode_utf8(b1),
                                contract_address: decode_utf8(b2),
                                callback_url: decode_utf8(b3),
                                interval_seconds: le8_val(s.subrange(1, 9)),
                            };
                            if m.valid() {
                                Some(m)
                            } else {
                                None
                            }
                        } else {
                            None
                        }
                    },
                    None => None,
                },
                None => None,
            },
            None => None,
        }
    } else {
        None
    }
}

/// Round trip: every valid configuration, written out as its record, parses
/// back to itself. The three byte-count bounds only keep the 8-byte length
/// fields from wrapping.
pub proof fn lemma_hook_round_trip(m: HookModel)
    requires
        m.valid(),
        encode_utf8(m.rpc_endpoint).len() <= u64::MAX,
        encode_utf8(m.contract_address).len() <= u64::MAX,
        encode_utf8(m.callback_url).len() <= u64::MAX,
    ensures
        parse_hook(hook_bytes(m)) == Some(m),
{
    let s = hook_bytes(m);
    let u1 = encode_utf8(m.rpc_endpoint);
    let u2 = encode_utf8(m.contract_address);
    let u3 = encode_utf8(m.callback_url);
    let n1 = u1.len() as int;
    let n2 = u2.len() as int;
    let n3 = u3.len() as int;
    assert(s.len() == 9 + 8 + n1 + 8 + n2 + 8 + n3);
    assert(s[0] == FORMAT_VERSION);

    assert(s.subrange(1, 9) =~= le8(m.interval_seconds));
    lemma_le8_val(m.interval_seconds);

    assert(s.subrange(9, 17) =~= le8(u1.len() as u64));
    lemma_le8_val(u1.len() as u64);
    assert(s.subrange(17, 17 + n1) =~= u1);
    let p1 = 17 + n1;
    assert(parse_segment(s, 9) == Some((u1, p1)));

    assert(s.subrange(p1, p1 + 8) =~= le8(u2.len() as u64));
    lemma_le8_val(u2.len() as u64);
    assert(s.subrange(p1 + 8, p1 + 8 + n2) =~= u2);
    let p2 = p1 + 8 + n2;
    assert(parse_segment(s, p1) == Some((u2, p2)));

    assert(s.subrange(p2, p2 + 8) =~= le8(u3.len() as u64));
    lemma_le8_val(u3.len() as u64);
    assert(s.subrange(p2 + 8, p2 + 8 + n3) =~= u3);
    let p3 = p2 + 8 + n3;
    assert(parse_segment(s, p2) == Some((u3, p3)));
    assert(p3 == s.len());

    encode_utf8_valid_utf8(m.rpc_endpoint);
    encode_utf8_valid_utf8(m.contract_address);
    encode_utf8_valid_utf8(m.callback_url);
    encode_utf8_decode_utf8(m.rpc_endpoint);
    encode_utf8_decode_utf8(m.contract_address);
    encode_utf8_decode_utf8(m.callback_url);
}

/// Appends the little-endian bytes of `n`, matching [`le8`].
pub fn append_le8(out: &mut Vec<u8>, n: u64)
    ensures
        final(out)@ == old(out)@ + le8(n),
{
    out.push((n & 0xff) as u8);
    out.push(((n >> 8) & 0xff) as u8);
    out.push(((n >> 16) & 0xff) as u8);
    out.push(((n >> 24) & 0xff) as u8);
    out.push(((n >> 32) & 0xff) as u8);
    out.push(((n >> 40) & 0xff) as u8);
    out.push(((n >> 48) & 0xff) as u8);
    out.push(((n >> 56) & 0xff) as u8);
    proof {
        assert(out@ =~= old(out)@ + le8(n));
    }
}

/// Appends one length-prefixed field.
fn append_segment(out: &mut Vec<u8>, field_bytes: &Vec<u8>)
    ensures
        final(out)@ == old(out)@ + le8(field_bytes@.len() as u64) + field_bytes@,
{
    append_le8(out, field_bytes.len() as u64);
    append_bytes(out, field_bytes.as_slice());
}

/// Writes the persisted record for `c`.
pub fn encode_hook(c: &HookConfig) -> (r: Vec<u8>)
    ensures
        r@ == hook_bytes(c@),
{
    let mut out: Vec<u8> = Vec::new();
    out.push(FORMAT_VERSION);
    append_le8(&mut out, c.interval_seconds);
    let b1 = c.rpc_endpoint.as_str().as_bytes_vec();
    append_segment(&mut out, &b1);
    let b2 = c.contract_address.as_str().as_bytes_vec();
    append_segment(&mut out, &b2);
    let b3 = c.callback_url.as_str().as_bytes_vec();
    append_segment(&mut out, &b3);
    proof {
        assert(out@ =~= hook_bytes(c@));
    }
    out
}

/// Relies on `String::from_utf8` of std: it succeeds exactly on valid UTF-8
/// and returns the string whose UTF-8 encoding is the given bytes.
#[verifier::external_body]
fn string_from_utf8(bytes: Vec<u8>) -> (r: Option<String>)
    ensures
        r is Some <==> valid_utf8(bytes@),
        match r {
            Some(s) => encode_utf8(s@) == bytes@,
            None => true,
        },
{
    String::from_utf8(bytes).ok()
}

/// Reads the eight little-endian bytes at `pos`, matching [`le8_val`].
fn read_le8(bytes: &[u8], pos: usize) -> (r: u64)
    requires
        pos + 8 <= bytes@.len(),
    ensures
        r == le8_val(bytes@.subrange(pos as int, pos as int + 8)),
{
    (bytes[pos] as u64) | ((bytes[pos + 1] as u64) << 8) | ((bytes[pos + 2] as u64) << 16) | ((
    bytes[pos + 3] as u64) << 24) | ((bytes[pos + 4] as u64) << 32) | ((bytes[pos + 5] as u64)
        << 40) | ((bytes[pos + 6] as u64) << 48) | ((bytes[pos + 7] as u64) << 56)
}

/// Reads one length-prefixed segment at `pos`, matching [`parse_segment`].
fn read_segment(bytes: &[u8], pos: usize) -> (r: Option<(Vec<u8>, usize)>)
    requires
        pos <= bytes@.len(),
    ensures
        match r {
            Some((seg, end)) => {
                &&& parse_segment(bytes@, pos as int) == Some((seg@, end as int))
                &&& pos < end <= bytes@.len()
            },
            None => parse_segment(bytes@, pos as int) is None,
        },
{
    if bytes.len() - pos < 8 {
        return None;
    }
    let l64 = read_le8(bytes, pos);
    let rem = bytes.len() - (pos + 8);
    if l64 > rem as u64 {
        return None;
    }
    let l = l64 as usize;
    let seg = copy_range(bytes, pos + 8, pos + 8 + l);
    Some((seg, pos + 8 + l))
}

/// Reads a persisted record back, returning exactly what [`parse_hook`]
/// says: the stored configuration on a well-formed record, `None` on
/// anything else.
pub fn decode_hook(bytes: &[u8]) -> (r: Option<HookConfig>)
    ensures
        match r {
            Some(c) => parse_hook(bytes@) == Some(c@) && c.valid(),
            None => parse_hook(bytes@) is None,
        },
{
    if bytes.len() < 9 {
        return None;
    }
    if bytes[0] != FORMAT_VERSION {
        return None;
    }
    let interval_seconds = read_le8(bytes, 1);
    let (b1, p1) = match read_segment(bytes, 9) {
        Some(x) => x,
        None => {
            return None;
        },
    };
    let (b2, p2) = match read_segment(bytes, p1) {
        Some(x) => x,
        None => {
            return None;
        },
    };
    let (b3, p3) = match read_segment(bytes, p2) {
        Some(x) => x,
        None => {
            return None;
        },
    };
    if p3 != bytes.len() {
        return None;
    }
    let ghost gb1 = b1@;
    let ghost gb2 = b2@;
    let ghost gb3 = b3@;
    let rpc_endpoint = match string_from_utf8(b1) {
        Some(s) => s,
        None => {
            return None;
        },
    };
    let contract_address = match string_from_utf8(b2) {
        Some(s) => s,
        None => {
            return None;
        },
    };
    let callback_url = match string_from_utf8(b3) {
        Some(s) => s,
        None => {
            return None;
        },
    };
    proof {
        encode_utf8_decode_utf8(rpc_endpoint@);
        encode_utf8_decode_utf8(contract_address@);
        encode_utf8_decode_utf8(callback_url@);
        assert(rpc_endpoint@ == decode_utf8(gb1));
        assert(contract_address@ == decode_utf8(gb2));
        assert(callback_url@ == decode_utf8(gb3));
    }
    if interval_seconds == 0 || rpc_endpoint.as_str().is_empty()
        || contract_address.as_str().is_empty() || callback_url.as_str().is_empty() {
        return None;
    }
    let c = HookConfig { rpc_endpoint, contract_address, callback_url, interval_seconds };
    Some(c)
}

} // verus!
