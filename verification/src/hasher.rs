//! The identity hash state and container aliases built on it.

use crate::value::H64;
use vstd::prelude::*;

verus! {

/// Identity hasher for use with [`H64`].
///
/// Feeding it a 64-bit integer sets the digest to that integer
/// verbatim: no mixing, no accumulation. It is meant to be fed exactly
/// once per key, with bits that are already well distributed (an
/// [`H64`]'s stored bits). Feeding it an arbitrary byte sequence is a
/// misuse and aborts.
pub struct H64Hasher(u64);

impl H64Hasher {
    /// The digest that [`core::hash::Hasher::finish`] will report.
    pub closed spec fn digest(self) -> u64 {
        self.0
    }

    /// A fresh state with digest 0.
    pub fn new() -> (r: Self)
        ensures
            r.digest() == 0,
    {
        H64Hasher(0)
    }

    /// Record a 64-bit integer: the digest becomes that integer,
    /// overwriting whatever was recorded before.
    pub fn write_u64(&mut self, i: u64)
        ensures
            final(self).digest() == i,
    {
        self.0 = i;
    }

    /// The recorded digest, unchanged.
    pub fn finish(&self) -> (r: u64)
        ensures
            r == self.digest(),
    {
        self.0
    }
}

impl Default for H64Hasher {
    /// A fresh state with digest 0.
    fn default() -> (r: Self)
        ensures
            r.digest() == 0,
    {
        H64Hasher(0)
    }
}

impl core::hash::Hasher for H64Hasher {
    fn finish(&self) -> u64 {
        H64Hasher::finish(self)
    }

    /// Relies on `Option::unwrap`, which panics on `None`: hashing an
    /// arbitrary byte sequence through this state is a misuse and must
    /// abort rather than fall back to a generic byte hash.
    #[verifier::external_body]
    fn write(&mut self, _bytes: &[u8]) {
        let unsupported: Option<u64> = None;
        unsupported.unwrap();
    }

    fn write_u64(&mut self, i: u64) {
        H64Hasher::write_u64(self, i);
    }
}

/// The standard `BuildHasherDefault`, declared so that the container
/// aliases below can name it; relied on only as a carrier of the
/// hasher type.
#[verifier::external_type_specification]
#[verifier::external_body]
#[verifier::reject_recursive_types(H)]
pub struct ExBuildHasherDefault<H>(core::hash::BuildHasherDefault<H>);

/// Specialization of `HashMap` that uses [`H64Hasher`].
///
/// Intended for [`H64`] keys. The alias stays generic, so a raw `u64`
/// that the caller knows to be well distributed may also serve as a
/// key; any other key type feeds bytes into [`H64Hasher`] and aborts.
pub type H64HashMap<K, V> = std::collections::HashMap<
    K,
    V,
    core::hash::BuildHasherDefault<H64Hasher>,
>;

/// Specialization of `HashSet` that uses [`H64Hasher`].
///
/// Intended for [`H64`] elements; the same key discipline applies as
/// for [`H64HashMap`].
pub type H64HashSet<T> = std::collections::HashSet<
    T,
    core::hash::BuildHasherDefault<H64Hasher>,
>;

} // verus!
