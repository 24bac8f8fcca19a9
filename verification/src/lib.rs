//! Pre-hashed 64-bit integers.
//!
//! A 64-bit key can carry its own hash: [`H64`] stores the image of a
//! `u64` under a fixed bijective mixing permutation, so a hash-based
//! container keyed by [`H64`] can use the stored bits directly instead
//! of hashing on every lookup. The crate provides the permutation and
//! its exact inverse ([`mix`] and [`unmix`], with proofs that they
//! cancel), the [`H64`] wrapper, a counter-backed [`H64Allocator`]
//! producing pairwise-distinct values, and the identity hash state
//! [`H64Hasher`] that passes pre-mixed bits through unchanged.

mod allocator;
mod hasher;
mod mixer;
mod value;

pub use allocator::H64Allocator;
pub use hasher::H64Hasher;
pub use hasher::H64HashMap;
pub use hasher::H64HashSet;
pub use mixer::MIX_MUL_1;
pub use mixer::MIX_MUL_2;
pub use mixer::UNMIX_MUL_1;
pub use mixer::UNMIX_MUL_2;
pub use mixer::lemma_mix_injective;
pub use mixer::lemma_mix_unmix;
pub use mixer::lemma_unmix_mix;
pub use mixer::mix;
pub use mixer::unmix;
pub use mixer::wrap_mul;
pub use value::H64;
pub use value::dec_digit;
pub use value::dec_str;
