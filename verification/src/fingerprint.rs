//! The 128-bit fingerprint: a pair of 64-bit hash values.
use crate::component::UmashComponent;
use std::cmp::Ordering;
use vstd::prelude::*;
use vstd::std_specs::cmp::PartialEqSpec;
use vstd::std_specs::cmp::PartialOrdSpec;

verus! {

/// The order of two pairs of words: by the first word, and by the second
/// where the first words are equal.
pub open spec fn lexicographic(a: (u64, u64), b: (u64, u64)) -> Ordering {
    if a.0 < b.0 {
        Ordering::Less
    } else if a.0 > b.0 {
        Ordering::Greater
    } else if a.1 < b.1 {
        Ordering::Less
    } else if a.1 > b.1 {
        Ordering::Greater
    } else {
        Ordering::Equal
    }
}

/// A 128-bit fingerprint holds the primary and the secondary hash of one
/// input under one parameter set and seed, in that order.
///
/// A document can be checked against a fingerprint by computing only
/// the primary hash and comparing it with the first word: that gives
/// less confidence than the full fingerprint, and is faster.
#[derive(Copy, Clone, Debug, Eq, Hash, Ord)]
pub struct Fingerprint {
    /// The primary hash, then the secondary.
    pub hash: [u64; 2],
}

impl View for Fingerprint {
    type V = (u64, u64);

    /// A fingerprint is its pair of words: the primary hash, then the
    /// secondary.
    open spec fn view(&self) -> (u64, u64) {
        (self.hash[0], self.hash[1])
    }
}

impl Fingerprint {
    /// The word of this fingerprint that `which` selects.
    pub open spec fn spec_component(self, which: UmashComponent) -> u64 {
        match which {
            UmashComponent::Hash => self@.0,
            UmashComponent::Secondary => self@.1,
        }
    }

    /// Builds the fingerprint whose primary hash is `hash` and whose
    /// secondary hash is `secondary`.
    pub fn new(hash: u64, secondary: u64) -> (fp: Fingerprint)
        ensures
            fp@ == (hash, secondary),
    {
        Fingerprint { hash: [hash, secondary] }
    }

    /// Returns the primary hash of the fingerprint.
    pub fn hash(&self) -> (h: u64)
        ensures
            h == self@.0,
    {
        self.hash[0]
    }

    /// Returns the secondary hash of the fingerprint.
    pub fn secondary(&self) -> (s: u64)
        ensures
            s == self@.1,
    {
        self.hash[1]
    }

    /// Returns the `which` component of the fingerprint.
    pub fn component(&self, which: UmashComponent) -> (c: u64)
        ensures
            c == self.spec_component(which),
            c == self.hash[which.spec_index()],
    {
        match which {
            UmashComponent::Hash => self.hash[0],
            UmashComponent::Secondary => self.hash[1],
        }
    }
}

impl PartialEq for Fingerprint {
    /// Two fingerprints are equal when both words match.
    fn eq(&self, other: &Self) -> (r: bool) {
        self.hash[0] == other.hash[0] && self.hash[1] == other.hash[1]
    }
}

impl vstd::std_specs::cmp::PartialEqSpecImpl for Fingerprint {
    open spec fn obeys_eq_spec() -> bool {
        true
    }

    open spec fn eq_spec(&self, other: &Self) -> bool {
        self.hash[0] == other.hash[0] && self.hash[1] == other.hash[1]
    }
}

impl PartialOrd for Fingerprint {
    /// Fingerprints are ordered as their pairs of words are.
    fn partial_cmp(&self, other: &Self) -> (r: Option<Ordering>) {
        if self.hash[0] < other.hash[0] {
            Some(Ordering::Less)
        } else if self.hash[0] > other.hash[0] {
            Some(Ordering::Greater)
        } else if self.hash[1] < other.hash[1] {
            Some(Ordering::Less)
        } else if self.hash[1] > other.hash[1] {
            Some(Ordering::Greater)
        } else {
            Some(Ordering::Equal)
        }
    }
}

impl vstd::std_specs::cmp::PartialOrdSpecImpl for Fingerprint {
    open spec fn obeys_partial_cmp_spec() -> bool {
        true
    }

    open spec fn partial_cmp_spec(&self, other: &Self) -> Option<Ordering> {
        Some(lexicographic(self@, other@))
    }
}

/// Whether `a` comes before `b` or is equal to it.
pub open spec fn at_most(a: Fingerprint, b: Fingerprint) -> bool {
    lexicographic(a@, b@) != Ordering::Greater
}

/// Two fingerprints are the same value exactly when both words match,
/// and that is what `==` computes.
pub proof fn lemma_equal_iff_words_match(a: Fingerprint, b: Fingerprint)
    ensures
        a == b <==> a@ == b@,
        a.eq_spec(&b) <==> a == b,
{
    if a@ == b@ {
        assert(a.hash =~= b.hash);
    }
}

/// A fingerprint is determined by its two components: one that has the
/// primary and the secondary hash of another is that other.
pub proof fn lemma_determined_by_components(a: Fingerprint, b: Fingerprint)
    requires
        a.spec_component(UmashComponent::Hash) == b.spec_component(UmashComponent::Hash),
        a.spec_component(UmashComponent::Secondary) == b.spec_component(
            UmashComponent::Secondary,
        ),
    ensures
        a == b,
{
    lemma_equal_iff_words_match(a, b);
}

/// Any two fingerprints are comparable; they compare as equal exactly
/// when they are the same value; and `a` is less than `b` exactly when
/// `b` is greater than `a`.
pub proof fn lemma_order_total(a: Fingerprint, b: Fingerprint)
    ensures
        a.partial_cmp_spec(&b) is Some,
        a.partial_cmp_spec(&b) == Some(Ordering::Equal) <==> a == b,
        a.partial_cmp_spec(&b) == Some(Ordering::Less) <==> b.partial_cmp_spec(&a) == Some(
            Ordering::Greater,
        ),
        at_most(a, b) || at_most(b, a),
        at_most(a, b) && at_most(b, a) ==> a == b,
{
    lemma_equal_iff_words_match(a, b);
}

/// The order is transitive, in its strict and in its weak form.
pub proof fn lemma_order_transitive(a: Fingerprint, b: Fingerprint, c: Fingerprint)
    ensures
        at_most(a, b) && at_most(b, c) ==> at_most(a, c),
        a.partial_cmp_spec(&b) == Some(Ordering::Less) && b.partial_cmp_spec(&c) == Some(
            Ordering::Less,
        ) ==> a.partial_cmp_spec(&c) == Some(Ordering::Less),
        a.partial_cmp_spec(&b) == Some(Ordering::Greater) && b.partial_cmp_spec(&c) == Some(
            Ordering::Greater,
        ) ==> a.partial_cmp_spec(&c) == Some(Ordering::Greater),
{
}

/// `==` and `<` on fingerprints meet the laws that vstd asks of an
/// equality and of an order.
pub proof fn lemma_obeys_comparison_laws()
    ensures
        vstd::laws_eq::obeys_eq::<Fingerprint>(),
        vstd::laws_eq::obeys_concrete_eq::<Fingerprint>(),
        vstd::laws_eq::obeys_view_eq::<Fingerprint>(),
        vstd::laws_cmp::obeys_cmp_partial_ord::<Fingerprint>(),
        vstd::laws_cmp::obeys_partial_cmp_spec_properties::<Fingerprint>(),
{
    reveal(vstd::laws_eq::obeys_eq_spec_properties);
    reveal(vstd::laws_eq::obeys_concrete_eq);
    reveal(vstd::laws_eq::obeys_view_eq);
    reveal(vstd::laws_cmp::obeys_cmp_partial_ord);
    reveal(vstd::laws_cmp::obeys_partial_cmp_spec_properties);
    assert forall|x: Fingerprint, y: Fingerprint| x.eq_spec(&y) <==> x == y by {
        lemma_equal_iff_words_match(x, y);
    }
    assert forall|x: Fingerprint, y: Fingerprint| #[trigger]
        x.partial_cmp_spec(&y) == Some(Ordering::Equal) <==> x.eq_spec(&y) by {
        lemma_order_total(x, y);
        lemma_equal_iff_words_match(x, y);
    }
}

} // verus!
