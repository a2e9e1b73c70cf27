//! The hash and encoding primitives that message IDs are built from.
//!
//! `murmur3` and `base64` compute them; the functions here fix what they are
//! applied to.

use vstd::prelude::*;
use vstd::utf8::encode_utf8;
use base64::Engine;

verus! {

/// The 32-bit x86 MurmurHash3 of `data` with the given seed, as
/// `murmur3::murmur3_32` computes it.
pub uninterp spec fn murmur3_x86_32(data: Seq<u8>, seed: u32) -> u32;

/// The character of the standard Base64 alphabet for the 6-bit value `v`.
pub open spec fn base64_char(v: int) -> char {
    if v < 26 {
        ('A' as int + v) as char
    } else if v < 52 {
        ('a' as int + (v - 26)) as char
    } else if v < 62 {
        ('0' as int + (v - 52)) as char
    } else if v == 62 {
        '+'
    } else {
        '/'
    }
}

/// The standard (RFC 4648, padded) Base64 encoding of `data`: each group of
/// three bytes, read as a big-endian 24-bit number, gives four characters of
/// six bits each; a final group of one or two bytes is padded with zero bits
/// and `=`.
pub open spec fn base64_standard(data: Seq<u8>) -> Seq<char>
    decreases data.len(),
{
    if data.len() == 0 {
        Seq::empty()
    } else if data.len() == 1 {
        let n = data[0] as int * 0x1_0000;
        seq![base64_char(n / 0x4_0000), base64_char((n / 0x1000) % 64), '=', '=']
    } else if data.len() == 2 {
        let n = data[0] as int * 0x1_0000 + data[1] as int * 0x100;
        seq![base64_char(n / 0x4_0000), base64_char((n / 0x1000) % 64), base64_char((n / 64) % 64), '=']
    } else {
        let n = data[0] as int * 0x1_0000 + data[1] as int * 0x100 + data[2] as int;
        seq![base64_char(n / 0x4_0000), base64_char((n / 0x1000) % 64), base64_char((n / 64) % 64), base64_char(n % 64)]
            + base64_standard(data.skip(3))
    }
}

/// Calls `murmur3::murmur3_32` on an in-memory reader over `data`.
///
/// Trusted: the hash is `murmur3_x86_32(data, seed)`. Reading from a slice
/// cannot fail, so the error branch is never taken. The crate counts the bytes
/// read in a `u32`, which overflows past `u32::MAX` bytes; such inputs are
/// excluded.
#[verifier::external_body]
pub(crate) fn murmur3_32_of(data: &[u8], seed: u32) -> (h: u32)
    requires
        data@.len() <= u32::MAX,
    ensures
        h == murmur3_x86_32(data@, seed),
{
    murmur3::murmur3_32(&mut std::io::Cursor::new(data), seed).unwrap_or(0)
}

/// Calls `base64::engine::general_purpose::STANDARD.encode`.
///
/// Trusted: the result is `base64_standard(data)`, the padded standard
/// encoding that the crate's `STANDARD` engine writes. The crate panics when the
/// encoded length overflows `usize`, which no slice of at most `isize::MAX`
/// bytes reaches.
#[verifier::external_body]
pub(crate) fn base64_encode(data: &[u8]) -> (s: String)
    requires
        data@.len() <= isize::MAX,
    ensures
        s@ == base64_standard(data@),
{
    base64::engine::general_purpose::STANDARD.encode(data)
}

/// The UTF-8 bytes of `s` can be counted in a `u32`.
pub open spec fn hashable(s: Seq<char>) -> bool {
    encode_utf8(s).len() <= u32::MAX
}

/// The UTF-8 bytes of `s` fit in a slice.
pub open spec fn encodable(s: Seq<char>) -> bool {
    encode_utf8(s).len() <= isize::MAX
}

/// The big-endian bytes of `h`.
pub open spec fn be_bytes(h: u32) -> Seq<u8> {
    seq![
        (h / 0x100_0000) as u8,
        ((h / 0x1_0000) % 0x100) as u8,
        ((h / 0x100) % 0x100) as u8,
        (h % 0x100) as u8,
    ]
}

/// The murmur3 hash (seed 0) of the UTF-8 bytes of `s`.
pub open spec fn murmur_of(s: Seq<char>) -> u32 {
    murmur3_x86_32(encode_utf8(s), 0)
}

/// The murmur3 hash of `s`, as Base64 of its big-endian bytes.
pub open spec fn murmur_base64(s: Seq<char>) -> Seq<char> {
    base64_standard(be_bytes(murmur_of(s)))
}

/// The decimal digit for `d < 10`.
pub open spec fn digit_char(d: nat) -> char {
    if d == 0 {
        '0'
    } else if d == 1 {
        '1'
    } else if d == 2 {
        '2'
    } else if d == 3 {
        '3'
    } else if d == 4 {
        '4'
    } else if d == 5 {
        '5'
    } else if d == 6 {
        '6'
    } else if d == 7 {
        '7'
    } else if d == 8 {
        '8'
    } else {
        '9'
    }
}

/// The decimal representation of `n`, without leading zeros.
pub open spec fn decimal(n: nat) -> Seq<char>
    decreases n,
{
    if n < 10 {
        seq![digit_char(n)]
    } else {
        decimal(n / 10).push(digit_char(n % 10))
    }
}

/// The murmur3 hash of `s`, in decimal.
pub open spec fn murmur_decimal(s: Seq<char>) -> Seq<char> {
    decimal(murmur_of(s) as nat)
}

/// The big-endian bytes of `h`.
pub fn be_bytes_exec(h: u32) -> (b: Vec<u8>)
    ensures
        b@ == be_bytes(h),
{
    let mut b: Vec<u8> = Vec::new();
    b.push((h / 0x100_0000) as u8);
    b.push(((h / 0x1_0000) % 0x100) as u8);
    b.push(((h / 0x100) % 0x100) as u8);
    b.push((h % 0x100) as u8);
    assert(b@ =~= be_bytes(h));
    b
}

/// The decimal digit for `d < 10`.
fn digit_char_exec(d: u32) -> (c: char)
    requires
        d < 10,
    ensures
        c == digit_char(d as nat),
{
    if d == 0 {
        '0'
    } else if d == 1 {
        '1'
    } else if d == 2 {
        '2'
    } else if d == 3 {
        '3'
    } else if d == 4 {
        '4'
    } else if d == 5 {
        '5'
    } else if d == 6 {
        '6'
    } else if d == 7 {
        '7'
    } else if d == 8 {
        '8'
    } else {
        '9'
    }
}

/// The decimal representation of `n`.
pub fn decimal_exec(n: u32) -> (r: Vec<char>)
    ensures
        r@ == decimal(n as nat),
    decreases n,
{
    if n < 10 {
        let mut r: Vec<char> = Vec::new();
        r.push(digit_char_exec(n));
        r
    } else {
        let mut r = decimal_exec(n / 10);
        r.push(digit_char_exec(n % 10));
        r
    }
}

/// The murmur3 hash (seed 0) of the UTF-8 bytes of `s`.
pub fn murmur_of_exec(s: &str) -> (h: u32)
    requires
        hashable(s@),
    ensures
        h == murmur_of(s@),
{
    murmur3_32_of(s.as_bytes(), 0)
}

/// The murmur3 hash of `s`, as Base64 of its big-endian bytes.
pub fn murmur_base64_exec(s: &str) -> (r: String)
    requires
        hashable(s@),
    ensures
        r@ == murmur_base64(s@),
{
    let h = murmur_of_exec(s);
    let bytes = be_bytes_exec(h);
    base64_encode(bytes.as_slice())
}

/// The murmur3 hash of `s`, in decimal.
pub fn murmur_decimal_exec(s: &str) -> (r: Vec<char>)
    requires
        hashable(s@),
    ensures
        r@ == murmur_decimal(s@),
{
    let h = murmur_of_exec(s);
    decimal_exec(h)
}

/// The standard Base64 encoding of the UTF-8 bytes of `s`.
pub fn base64_of_exec(s: &str) -> (r: String)
    requires
        encodable(s@),
    ensures
        r@ == base64_standard(encode_utf8(s@)),
{
    base64_encode(s.as_bytes())
}

} // verus!
