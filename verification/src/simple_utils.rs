//! Hash and path helpers of the minimal transform.

use vstd::prelude::*;
use crate::gen_path::spec_dot_path;
use crate::hashing::{hashable, murmur_decimal};

verus! {

/// The murmur3 hash (seed 0) of `message`, in decimal.
pub fn create_hash(message: &str) -> (r: String)
    requires
        hashable(message@),
    ensures
        r@ == murmur_decimal(message@),
{
    crate::id_generator::murmur32_hash(message)
}

/// `path` with each `/` replaced by `separator`.
pub fn dot_path(path: &str, separator: &str) -> (r: String)
    ensures
        r@ == spec_dot_path(path@, separator@),
{
    crate::gen_path::dot_path(path, separator)
}

} // verus!
