//! The inputs from which the mixing engine derives a parameter set.
use vstd::prelude::*;

verus! {

/// The number of key bytes that a derivation takes.
pub const KEY_BYTES: usize = 32;

/// The 32 key bytes that stand for `key`: its first 32 bytes, followed by
/// zeros where it has fewer.
pub open spec fn key_block(key: Seq<u8>) -> Seq<u8> {
    Seq::new(32, |i: int| if i < key.len() { key[i] } else { 0u8 })
}

/// A 64-bit tag and exactly 32 bytes of key material.  The mixing engine
/// derives one parameter set from each such pair, the same one in every
/// process and on every machine.
#[derive(Clone, Copy, Debug, PartialEq, Eq)]
pub struct Derivation {
    /// The tag.  It need not be well distributed: consecutive numbers
    /// give unrelated parameter sets.
    pub bits: u64,
    /// The key material.
    pub key: [u8; 32],
}

impl View for Derivation {
    type V = (u64, Seq<u8>);

    /// A derivation is its tag and its 32 key bytes.
    open spec fn view(&self) -> (u64, Seq<u8>) {
        (self.bits, self.key@)
    }
}

impl Derivation {
    /// Returns the derivation for `bits` and the first 32 bytes of `key`.
    /// A shorter key is padded with zeros; what follows the first 32
    /// bytes of a longer one is ignored.
    pub fn new(bits: u64, key: &[u8]) -> (d: Derivation)
        ensures
            d@ == (bits, key_block(key@)),
    {
        let mut block = [0u8; 32];
        let to_copy: usize = if key.len() < KEY_BYTES {
            key.len()
        } else {
            KEY_BYTES
        };
        let mut i: usize = 0;
        while i < to_copy
            invariant
                i <= to_copy <= 32,
                to_copy <= key.len(),
                forall|j: int| 0 <= j < i ==> block[j] == key[j],
                forall|j: int| i <= j < 32 ==> block[j] == 0,
            decreases to_copy - i,
        {
            block[i] = key[i];
            i += 1;
        }
        assert(block@ =~= key_block(key@));
        Derivation { bits, key: block }
    }
}

/// A key of exactly 32 bytes is taken as it is.
pub proof fn lemma_full_key_kept(key: Seq<u8>)
    requires
        key.len() == 32,
    ensures
        key_block(key) == key,
{
    assert(key_block(key) =~= key);
}

/// Only the first 32 bytes of a key count: whatever follows them, the
/// key bytes of the derivation are the same.
pub proof fn lemma_tail_ignored(key: Seq<u8>, tail: Seq<u8>)
    requires
        key.len() >= 32,
    ensures
        key_block(key + tail) == key_block(key),
        key_block(key) == key.subrange(0, 32),
{
    assert(key_block(key + tail) =~= key_block(key));
    assert(key_block(key) =~= key.subrange(0, 32));
}

/// Zero bytes at the end of a key of fewer than 32 bytes are not told
/// apart from the padding: the key with them and the key without them
/// give the same key bytes.
pub proof fn lemma_trailing_zeros_ignored(key: Seq<u8>, zeros: Seq<u8>)
    requires
        key.len() <= 32,
        forall|i: int| 0 <= i < zeros.len() ==> zeros[i] == 0,
    ensures
        key_block(key + zeros) == key_block(key),
{
    assert(key_block(key + zeros) =~= key_block(key));
}

/// Deriving is a function of its arguments: two derivations made from the
/// same tag and the same key are the same value, byte for byte.
pub proof fn lemma_derivation_deterministic(a: Derivation, b: Derivation, bits: u64, key: Seq<u8>)
    requires
        a@ == (bits, key_block(key)),
        b@ == (bits, key_block(key)),
    ensures
        a == b,
{
    assert(a.key =~= b.key);
}

} // verus!
