//! Contract-call construction and return-value decoding.
//!
//! The relay polls one statically known contract method that takes a single
//! `bytes` argument and returns a single address. The call data is the
//! 4-byte selector — the first four bytes of the Keccak-256 digest of the
//! method signature — followed by the standard encoding of the argument:
//! the head word 32, the byte count, and the bytes padded with zeros to a
//! multiple of 32. The reply carries one 32-byte word in hex; the address
//! is its last 20 bytes, rendered canonically as `0x` plus lowercase hex.

use vstd::prelude::*;
use vstd::string::StrSliceExecFns;
use vstd::utf8::encode_utf8;

use crate::textfmt::{
    append_bytes, bytes_to_hex, copy_range, hex_bytes, hex_val, hex_val_exec, is_hex_digit,
};

verus! {

/// What `ethers_core::utils::keccak256` returns: the Keccak-256 digest,
/// a function of the input bytes alone.
pub uninterp spec fn keccak_of(data: Seq<u8>) -> Seq<u8>;

/// Relies on `ethers_core::utils::keccak256`: the digest depends on the
/// input bytes alone and is 32 bytes long.
#[verifier::external_body]
fn keccak256(data: &[u8]) -> (r: Vec<u8>)
    ensures
        r@ == keccak_of(data@),
        r@.len() == 32,
{
    ethers_core::utils::keccak256(data).to_vec()
}

/// A 32-byte word holding `n` big-endian in its last eight bytes.
pub open spec fn abi_word(n: u64) -> Seq<u8> {
    Seq::new(24, |i: int| 0u8) + seq![
        ((n >> 56) & 0xff) as u8,
        ((n >> 48) & 0xff) as u8,
        ((n >> 40) & 0xff) as u8,
        ((n >> 32) & 0xff) as u8,
        ((n >> 24) & 0xff) as u8,
        ((n >> 16) & 0xff) as u8,
        ((n >> 8) & 0xff) as u8,
        (n & 0xff) as u8,
    ]
}

/// How many zero bytes pad `n` bytes to a multiple of 32.
pub open spec fn pad_len(n: int) -> int
    recommends
        n >= 0,
{
    (32 - (n % 32)) % 32
}

/// The standard encoding of a single dynamic `bytes` argument: offset word,
/// length word, the bytes, zero padding to a word boundary.
pub open spec fn abi_bytes_arg(arg: Seq<u8>) -> Seq<u8> {
    abi_word(32) + abi_word(arg.len() as u64) + arg + Seq::new(
        pad_len(arg.len() as int) as nat,
        |i: int| 0u8,
    )
}

/// The complete call data for invoking `sig` with one `bytes` argument.
pub open spec fn call_data(sig: Seq<char>, arg: Seq<u8>) -> Seq<u8> {
    keccak_of(encode_utf8(sig)).subrange(0, 4) + abi_bytes_arg(arg)
}

/// Appends a 32-byte big-endian word, matching [`abi_word`].
fn append_abi_word(out: &mut Vec<u8>, n: u64)
    ensures
        final(out)@ == old(out)@ + abi_word(n),
{
    let mut i: usize = 0;
    while i < 24
        invariant
            i <= 24,
            out@.len() == old(out)@.len() + i,
            forall|j: int| 0 <= j < old(out)@.len() ==> out@[j] == old(out)@[j],
            forall|j: int| old(out)@.len() <= j < out@.len() ==> out@[j] == 0u8,
        decreases 24 - i,
    {
        out.push(0);
        i += 1;
    }
    out.push(((n >> 56) & 0xff) as u8);
    out.push(((n >> 48) & 0xff) as u8);
    out.push(((n >> 40) & 0xff) as u8);
    out.push(((n >> 32) & 0xff) as u8);
    out.push(((n >> 24) & 0xff) as u8);
    out.push(((n >> 16) & 0xff) as u8);
    out.push(((n >> 8) & 0xff) as u8);
    out.push((n & 0xff) as u8);
    proof {
        assert(out@ =~= old(out)@ + abi_word(n));
    }
}

/// Builds the call data for `sig` applied to `arg`, matching [`call_data`].
pub fn build_call_data(sig: &str, arg: &[u8]) -> (r: Vec<u8>)
    ensures
        r@ == call_data(sig@, arg@),
{
    let sig_bytes = sig.as_bytes_vec();
    let digest = keccak256(sig_bytes.as_slice());
    let mut out = copy_range(digest.as_slice(), 0, 4);
    append_abi_word(&mut out, 32);
    append_abi_word(&mut out, arg.len() as u64);
    append_bytes(&mut out, arg);
    let pad = (32 - (arg.len() % 32)) % 32;
    let ghost mid = out@;
    let mut i: usize = 0;
    while i < pad
        invariant
            i <= pad,
            out@.len() == mid.len() + i,
            forall|j: int| 0 <= j < mid.len() ==> out@[j] == mid[j],
            forall|j: int| mid.len() <= j < out@.len() ==> out@[j] == 0u8,
        decreases pad - i,
    {
        out.push(0);
        i += 1;
    }
    proof {
        assert(pad as int == pad_len(arg@.len() as int));
        assert(mid =~= keccak_of(encode_utf8(sig@)).subrange(0, 4) + abi_word(32) + abi_word(
            arg@.len() as u64,
        ) + arg@);
        assert(out@ =~= mid + Seq::new(pad as nat, |i: int| 0u8));
        assert(out@ =~= call_data(sig@, arg@));
    }
    out
}

/// Whether a reply string (as UTF-8 bytes) is the well-formed hex form of
/// one 32-byte return word: `0x` followed by exactly 64 hex digits.
pub open spec fn reply_word_ok(s: Seq<u8>) -> bool {
    &&& s.len() == 66
    &&& s[0] == 0x30u8
    &&& s[1] == 0x78u8
    &&& forall|i: int| 2 <= i < 66 ==> is_hex_digit(#[trigger] s[i])
}

/// The 32 bytes a well-formed reply word denotes.
pub open spec fn reply_word_bytes(s: Seq<u8>) -> Seq<u8> {
    Seq::new(32, |i: int| (hex_val(s[2 + 2 * i]) * 16 + hex_val(s[2 + 2 * i + 1])) as u8)
}

/// The canonical string form (as UTF-8 bytes) of the address a well-formed
/// reply carries: `0x` plus the lowercase hex of the word's last 20 bytes.
pub open spec fn canonical_address(s: Seq<u8>) -> Seq<u8> {
    seq![0x30u8, 0x78u8] + hex_bytes(reply_word_bytes(s).subrange(12, 32))
}

/// Decodes the contract's reply string (as UTF-8 bytes) into the canonical
/// address form. `None` exactly when the reply does not have the expected
/// shape — the decode-mismatch case the caller records as a failed cycle.
pub fn decode_address_reply(s: &[u8]) -> (r: Option<Vec<u8>>)
    ensures
        r is Some <==> reply_word_ok(s@),
        match r {
            Some(v) => v@ == canonical_address(s@),
            None => true,
        },
{
    if s.len() != 66 {
        return None;
    }
    if s[0] != 0x30 || s[1] != 0x78 {
        return None;
    }
    let mut word: Vec<u8> = Vec::new();
    let mut i: usize = 0;
    while i < 32
        invariant
            i <= 32,
            s@.len() == 66,
            word@.len() == i,
            forall|j: int| 2 <= j < 2 + 2 * i ==> is_hex_digit(#[trigger] s@[j]),
            forall|j: int|
                0 <= j < i ==> word@[j] == (hex_val(s@[2 + 2 * j]) * 16 + hex_val(
                    s@[2 + 2 * j + 1],
                )) as u8,
        decreases 32 - i,
    {
        let hi = match hex_val_exec(s[2 + 2 * i]) {
            Some(v) => v,
            None => {
                return None;
            },
        };
        let lo = match hex_val_exec(s[2 + 2 * i + 1]) {
            Some(v) => v,
            None => {
                return None;
            },
        };
        word.push(hi * 16 + lo);
        i += 1;
    }
    proof {
        assert(reply_word_ok(s@));
        assert(word@ =~= reply_word_bytes(s@));
    }
    let tail = copy_range(word.as_slice(), 12, 32);
    let hex = bytes_to_hex(tail.as_slice());
    let mut out: Vec<u8> = Vec::new();
    out.push(0x30);
    out.push(0x78);
    let mut k: usize = 0;
    while k < hex.len()
        invariant
            k <= hex@.len(),
            out@ == seq![0x30u8, 0x78u8] + hex@.take(k as int),
        decreases hex@.len() - k,
    {
        out.push(hex[k]);
        k += 1;
        proof {
            assert(seq![0x30u8, 0x78u8] + hex@.take(k as int) =~= (seq![0x30u8, 0x78u8]
                + hex@.take(k - 1)).push(hex@[k - 1]));
        }
    }
    proof {
        assert(hex@.take(hex@.len() as int) =~= hex@);
        assert(out@ =~= canonical_address(s@));
    }
    Some(out)
}

} // verus!
