//! The selector between the two 64-bit functions of one parameter set.
use vstd::prelude::*;

verus! {

/// A parameter set defines a pair of 64-bit hash functions.  `Hash` is
/// the primary one, and the first word of a fingerprint; `Secondary` is
/// the second word.
#[derive(Clone, Copy, Debug, PartialEq, Eq, Hash, Structural)]
pub enum UmashComponent {
    /// The primary 64-bit hash.
    Hash,
    /// The secondary 64-bit value, which completes a fingerprint.
    Secondary,
}

impl UmashComponent {
    /// The position of this component in a fingerprint, which is also the
    /// number by which the mixing engine knows it.
    pub open spec fn spec_index(self) -> int {
        match self {
            UmashComponent::Hash => 0,
            UmashComponent::Secondary => 1,
        }
    }

    /// Returns the position of this component in a fingerprint: 0 for
    /// the primary hash, 1 for the secondary.
    pub fn index(self) -> (i: usize)
        ensures
            i == self.spec_index(),
    {
        match self {
            UmashComponent::Hash => 0,
            UmashComponent::Secondary => 1,
        }
    }
}

} // verus!
