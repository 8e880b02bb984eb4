//! Byte-level text rendering used by the wire formats: decimal numbers,
//! lowercase hex, and JSON string escaping. Everything here works on UTF-8
//! byte sequences, so the rendered text can be spliced directly into the
//! JSON bodies the relay sends.

use vstd::prelude::*;

verus! {

/// The ASCII digit for a decimal value `d` in `0..10`.
pub open spec fn dec_digit(d: int) -> u8
    recommends
        0 <= d < 10,
{
    (0x30 + d) as u8
}

/// The shortest decimal rendering of `n`, most significant digit first.
pub open spec fn dec_bytes(n: nat) -> Seq<u8>
    decreases n,
{
    if n < 10 {
        seq![dec_digit(n as int)]
    } else {
        dec_bytes(n / 10).push(dec_digit((n % 10) as int))
    }
}

/// Renders `n` in decimal, matching [`dec_bytes`].
pub fn u64_to_dec(n: u64) -> (r: Vec<u8>)
    ensures
        r@ == dec_bytes(n as nat),
    decreases n,
{
    if n < 10 {
        let mut r: Vec<u8> = Vec::new();
        r.push(0x30 + n as u8);
        proof {
            assert(r@ =~= seq![dec_digit(n as int)]);
        }
        r
    } else {
        let mut r = u64_to_dec(n / 10);
        r.push(0x30 + (n % 10) as u8);
        r
    }
}

/// A decimal rendering is never empty, and has at least two digits from 10 up.
pub proof fn lemma_dec_bytes_len(n: nat)
    ensures
        dec_bytes(n).len() >= 1,
        n >= 10 ==> dec_bytes(n).len() >= 2,
    decreases n,
{
    if n >= 10 {
        lemma_dec_bytes_len(n / 10);
    }
}

/// Distinct numbers have distinct decimal renderings.
pub proof fn lemma_dec_bytes_injective(a: nat, b: nat)
    requires
        dec_bytes(a) == dec_bytes(b),
    ensures
        a == b,
    decreases a,
{
    lemma_dec_bytes_len(a);
    lemma_dec_bytes_len(b);
    if a < 10 && b < 10 {
        assert(dec_bytes(a)[0] == dec_digit(a as int));
        assert(dec_bytes(b)[0] == dec_digit(b as int));
    } else if a < 10 || b < 10 {
        // One rendering has one byte, the other at least two.
        assert(dec_bytes(a).len() == dec_bytes(b).len());
    } else {
        let da = dec_digit((a % 10) as int);
        let db = dec_digit((b % 10) as int);
        assert(dec_bytes(a) == dec_bytes(a / 10).push(da));
        assert(dec_bytes(b) == dec_bytes(b / 10).push(db));
        assert(dec_bytes(a).last() == da);
        assert(dec_bytes(b).last() == db);
        assert(a % 10 == b % 10);
        assert(dec_bytes(a).drop_last() =~= dec_bytes(a / 10));
        assert(dec_bytes(b).drop_last() =~= dec_bytes(b / 10));
        lemma_dec_bytes_injective(a / 10, b / 10);
        assert(a == 10 * (a / 10) + a % 10);
        assert(b == 10 * (b / 10) + b % 10);
    }
}

/// The lowercase ASCII hex digit for a value `d` in `0..16`.
pub open spec fn hex_digit(d: int) -> u8
    recommends
        0 <= d < 16,
{
    if d < 10 {
        (0x30 + d) as u8
    } else {
        (0x57 + d) as u8
    }
}

/// Lowercase hex rendering of a byte string, two digits per byte.
pub open spec fn hex_bytes(s: Seq<u8>) -> Seq<u8> {
    Seq::new(
        s.len() * 2,
        |i: int|
            if i % 2 == 0 {
                hex_digit((s[i / 2] >> 4) as int)
            } else {
                hex_digit((s[i / 2] & 0xf) as int)
            },
    )
}

/// Renders one hex digit, matching [`hex_digit`].
fn hex_digit_exec(d: u8) -> (r: u8)
    requires
        d < 16,
    ensures
        r == hex_digit(d as int),
{
    if d < 10 {
        0x30 + d
    } else {
        0x57 + d
    }
}

/// Renders a byte string in lowercase hex, matching [`hex_bytes`].
pub fn bytes_to_hex(s: &[u8]) -> (r: Vec<u8>)
    ensures
        r@ == hex_bytes(s@),
{
    let mut r: Vec<u8> = Vec::new();
    let mut i: usize = 0;
    while i < s.len()
        invariant
            i <= s@.len(),
            r@.len() == 2 * i,
            forall|j: int| 0 <= j < r@.len() ==> r@[j] == hex_bytes(s@)[j],
        decreases s@.len() - i,
    {
        let b = s[i];
        let hi = b >> 4;
        let lo = b & 0xf;
        assert(b >> 4 < 16 && b & 0xf < 16) by (bit_vector);
        r.push(hex_digit_exec(hi));
        r.push(hex_digit_exec(lo));
        i += 1;
    }
    proof {
        assert(r@ =~= hex_bytes(s@));
    }
    r
}

/// Whether `b` is an ASCII hex digit, upper or lower case.
pub open spec fn is_hex_digit(b: u8) -> bool {
    (0x30 <= b <= 0x39) || (0x41 <= b <= 0x46) || (0x61 <= b <= 0x66)
}

/// The value of an ASCII hex digit.
pub open spec fn hex_val(b: u8) -> int
    recommends
        is_hex_digit(b),
{
    if 0x30 <= b <= 0x39 {
        b - 0x30
    } else if 0x41 <= b <= 0x46 {
        b - 0x37
    } else {
        b - 0x57
    }
}

/// Reads one hex digit, matching [`hex_val`]; `None` exactly on a byte that
/// is no hex digit.
pub fn hex_val_exec(b: u8) -> (r: Option<u8>)
    ensures
        r is Some <==> is_hex_digit(b),
        r is Some ==> r->0 == hex_val(b) && r->0 < 16,
{
    if 0x30 <= b && b <= 0x39 {
        Some(b - 0x30)
    } else if 0x41 <= b && b <= 0x46 {
        Some(b - 0x37)
    } else if 0x61 <= b && b <= 0x66 {
        Some(b - 0x57)
    } else {
        None
    }
}

/// The bytes a string byte contributes to a JSON string literal: quote and
/// backslash are escaped, control bytes become `\u00XX`, everything else
/// (including UTF-8 continuation bytes) passes through unchanged.
pub open spec fn escape_byte(b: u8) -> Seq<u8> {
    if b == 0x22 {
        seq![0x5cu8, 0x22u8]
    } else if b == 0x5c {
        seq![0x5cu8, 0x5cu8]
    } else if b < 0x20 {
        seq![0x5cu8, 0x75u8, 0x30u8, 0x30u8, hex_digit((b >> 4) as int), hex_digit((b & 0xf) as int)]
    } else {
        seq![b]
    }
}

/// The body of a JSON string literal holding the byte string `s`.
pub open spec fn json_escape(s: Seq<u8>) -> Seq<u8>
    decreases s.len(),
{
    if s.len() == 0 {
        Seq::empty()
    } else {
        json_escape(s.drop_last()) + escape_byte(s.last())
    }
}

/// Appends the JSON-escaped form of `s` to `out`, matching [`json_escape`].
pub fn append_json_escaped(out: &mut Vec<u8>, s: &[u8])
    ensures
        final(out)@ == old(out)@ + json_escape(s@),
{
    let ghost base = out@;
    let mut i: usize = 0;
    while i < s.len()
        invariant
            i <= s@.len(),
            out@ == base + json_escape(s@.take(i as int)),
        decreases s@.len() - i,
    {
        let ghost prefix = s@.take(i as int);
        let b = s[i];
        if b == 0x22 {
            out.push(0x5c);
            out.push(0x22);
        } else if b == 0x5c {
            out.push(0x5c);
            out.push(0x5c);
        } else if b < 0x20 {
            let hi = b >> 4;
            let lo = b & 0xf;
            assert(b >> 4 < 16 && b & 0xf < 16) by (bit_vector);
            out.push(0x5c);
            out.push(0x75);
            out.push(0x30);
            out.push(0x30);
            out.push(hex_digit_exec(hi));
            out.push(hex_digit_exec(lo));
        } else {
            out.push(b);
        }
        i += 1;
        proof {
            let next = s@.take(i as int);
            assert(next.drop_last() =~= prefix);
            assert(next.last() == b);
            assert(out@ =~= base + json_escape(next));
        }
    }
    proof {
        assert(s@.take(s@.len() as int) =~= s@);
    }
}

/// Copies `bytes[start..end]` into a fresh vector.
pub fn copy_range(bytes: &[u8], start: usize, end: usize) -> (r: Vec<u8>)
    requires
        start <= end <= bytes@.len(),
    ensures
        r@ == bytes@.subrange(start as int, end as int),
{
    let mut r: Vec<u8> = Vec::new();
    let mut i: usize = start;
    while i < end
        invariant
            start <= i <= end <= bytes@.len(),
            r@ == bytes@.subrange(start as int, i as int),
        decreases end - i,
    {
        r.push(bytes[i]);
        i += 1;
        proof {
            assert(bytes@.subrange(start as int, i as int) =~= bytes@.subrange(
                start as int,
                i - 1,
            ).push(bytes@[i - 1]));
        }
    }
    r
}

/// Appends a byte slice to `out` unchanged.
pub fn append_bytes(out: &mut Vec<u8>, s: &[u8])
    ensures
        final(out)@ == old(out)@ + s@,
{
    let mut i: usize = 0;
    while i < s.len()
        invariant
            i <= s@.len(),
            out@ == old(out)@ + s@.take(i as int),
        decreases s@.len() - i,
    {
        out.push(s[i]);
        i += 1;
        proof {
            assert(old(out)@ + s@.take(i as int) =~= (old(out)@ + s@.take(i - 1)).push(s@[i - 1]));
        }
    }
    proof {
        assert(s@.take(s@.len() as int) =~= s@);
    }
}

} // verus!
