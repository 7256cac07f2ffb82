//! The hash capability used for ring placement and key routing: a 64-bit
//! non-cryptographic hash, deterministic in its input bytes.
use vstd::prelude::*;

verus! {

/// Name for the digest that the XXH64 algorithm with seed 0 assigns to a
/// string's UTF-8 bytes. The algorithm reads nothing but those bytes, so
/// the digest is a pure function of the characters.
pub uninterp spec fn xx_hash_of(key: Seq<char>) -> u64;

/// A hash capability: maps a key to a 64-bit position, as a pure function
/// of the key's characters. Equal keys always hash equal.
pub trait HashFunction: Sized {
    /// The function this hasher computes.
    spec fn hash_spec(&self, key: Seq<char>) -> u64;

    /// Computes the position of `key`.
    fn hash(&self, key: &str) -> (r: u64)
        ensures
            r == self.hash_spec(key@),
    ;
}

/// The default hasher: XXH64 with seed 0.
#[derive(Clone, Copy, Debug, Default)]
pub struct XxHash;

/// Relies on `twox_hash::XxHash64::oneshot`: the XXH64 digest with the
/// given seed of the given bytes, a deterministic function of seed and
/// bytes alone.
#[verifier::external_body]
fn xx_hash64_seed0(key: &str) -> (r: u64)
    ensures
        r == xx_hash_of(key@),
{
    twox_hash::XxHash64::oneshot(0, key.as_bytes())
}

impl HashFunction for XxHash {
    open spec fn hash_spec(&self, key: Seq<char>) -> u64 {
        xx_hash_of(key)
    }

    fn hash(&self, key: &str) -> (r: u64) {
        xx_hash64_seed0(key)
    }
}

} // verus!
