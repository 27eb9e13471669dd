//! Parameter handling and result types for the UMASH family of
//! almost-universal hash functions.
//!
//! A UMASH function is fixed by a block of parameters that the mixing
//! engine derives from a 64-bit tag and 32 bytes of key material, and
//! it yields a 64-bit hash for each of its two components, or both at
//! once as a 128-bit fingerprint.  This crate holds what stands around
//! the engine and works on plain values:
//!
//! - [`UmashComponent`], the selector between the two 64-bit functions;
//! - [`Fingerprint`], the pair of hash values, with its equality and
//!   its lexicographic order;
//! - [`Derivation`], the tag and key bytes that a parameter set is
//!   derived from, made from caller-supplied keys of any length;
//! - [`RandomState`] and [`LazyRandomState`], from which a thread draws
//!   derivations that do not repeat before 2^64 calls;
//! - [`defaults`], the fixed values of the default instance.
//!
//! Each function states what it returns over mathematical values, and
//! the laws that relate them stand beside them as proof functions.
pub mod component;
pub mod defaults;
pub mod derivation;
pub mod fingerprint;
pub mod random_state;

pub use component::UmashComponent;
pub use derivation::Derivation;
pub use fingerprint::Fingerprint;
pub use random_state::EntropyError;
pub use random_state::LazyRandomState;
pub use random_state::RandomState;
