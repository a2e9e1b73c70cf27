//! Hash functions for message IDs in decimal and Base64 form.

use vstd::prelude::*;
use vstd::utf8::encode_utf8;
use crate::hashing::{
    base64_of_exec, base64_standard, encodable, hashable, murmur_decimal, murmur_decimal_exec,
};
use crate::text::{chars_of, chars_eq, string_of};

verus! {

/// A murmur3 hash with seed 0, as a decimal string.
pub fn murmur32_hash(input: &str) -> (r: String)
    requires
        hashable(input@),
    ensures
        r@ == murmur_decimal(input@),
{
    string_of(&murmur_decimal_exec(input))
}

/// The standard Base64 encoding of the UTF-8 bytes of `input`.
pub fn base64_hash(input: &str) -> (r: String)
    requires
        encodable(input@),
    ensures
        r@ == base64_standard(encode_utf8(input@)),
{
    base64_of_exec(input)
}

/// The algorithm name `base64`.
pub open spec fn base64_name() -> Seq<char> {
    seq!['b', 'a', 's', 'e', '6', '4']
}

/// `input` hashed with `algorithm`: `base64` encodes, anything else is murmur3.
pub open spec fn spec_hash_string(input: Seq<char>, algorithm: Seq<char>) -> Seq<char> {
    if algorithm == base64_name() {
        base64_standard(encode_utf8(input))
    } else {
        murmur_decimal(input)
    }
}

/// `input` can be hashed with `algorithm`.
pub open spec fn can_hash(input: Seq<char>, algorithm: Seq<char>) -> bool {
    if algorithm == base64_name() {
        encodable(input)
    } else {
        hashable(input)
    }
}

/// Whether `algorithm` names Base64.
pub fn is_base64_name(algorithm: &str) -> (r: bool)
    ensures
        r == (algorithm@ == base64_name()),
{
    let a = chars_of(algorithm);
    let mut b: Vec<char> = Vec::new();
    b.push('b');
    b.push('a');
    b.push('s');
    b.push('e');
    b.push('6');
    b.push('4');
    assert(b@ =~= base64_name());
    chars_eq(&a, &b)
}

/// Hashes a string using the specified algorithm: `base64` or `murmur3` (the
/// default for any other name).
pub fn hash_string(input: &str, algorithm: &str) -> (r: String)
    requires
        can_hash(input@, algorithm@),
    ensures
        r@ == spec_hash_string(input@, algorithm@),
{
    if is_base64_name(algorithm) {
        base64_hash(input)
    } else {
        murmur32_hash(input)
    }
}

/// Law: any algorithm name other than `base64` hashes with murmur3, so all
/// such names give the same result.
pub proof fn law_hash_string_default(input: Seq<char>, a1: Seq<char>, a2: Seq<char>)
    requires
        a1 != base64_name(),
        a2 != base64_name(),
    ensures
        spec_hash_string(input, a1) == murmur_decimal(input),
        spec_hash_string(input, a1) == spec_hash_string(input, a2),
{
}

} // verus!

