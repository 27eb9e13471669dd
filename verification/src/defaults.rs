//! The fixed values behind the default instance and the standard adapters.
use crate::derivation::key_block;
use crate::derivation::Derivation;
use vstd::prelude::*;

verus! {

/// The tag from which the default instance is derived.
pub const DEFAULT_TAG: u64 = 0;

/// The seed with which the default instance hashes.
pub const DEFAULT_SEED: u64 = 42;

/// The seed of the hashers that a parameter set builds on demand, as a
/// hash table asks for them.
pub const BUILD_HASHER_SEED: u64 = 0;

/// The key of the default instance: the ASCII bytes of `hello example.c`.
pub open spec fn default_key() -> Seq<u8> {
    seq![
        104u8, 101u8, 108u8, 108u8, 111u8, 32u8, 101u8, 120u8,
        97u8, 109u8, 112u8, 108u8, 101u8, 46u8, 99u8,
    ]
}

/// Returns the derivation of the default instance: a fixed tag and a
/// fixed, well-known key, the same in every process.  It is there for
/// convenience, and bounds no collision probability against inputs
/// chosen with the key in mind.
pub fn default_derivation() -> (d: Derivation)
    ensures
        d@ == (DEFAULT_TAG, key_block(default_key())),
{
    let key: [u8; 15] = [104, 101, 108, 108, 111, 32, 101, 120, 97, 109, 112, 108, 101, 46, 99];
    assert(key@ =~= default_key());
    Derivation::new(DEFAULT_TAG, &key)
}

} // verus!
