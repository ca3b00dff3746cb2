use vstd::prelude::*;

verus! {

/// Relies on `ahash::AHasher` through std's `Hasher` trait: `Default` builds
/// a hasher with fixed keys, so within one process equal write sequences
/// give equal values. The value itself is left unspecified: it varies with
/// the crate's key generation and the machine. Writes the raw index value,
/// then the given bytes.
#[verifier::external_body]
pub(crate) fn hash_index_and_bytes(nid: i64, bytes: &[u8]) -> u64 {
    let mut hasher = ahash::AHasher::default();
    std::hash::Hasher::write_i64(&mut hasher, nid);
    std::hash::Hasher::write(&mut hasher, bytes);
    std::hash::Hasher::finish(&hasher)
}

/// Relies on `ahash::AHasher` through std's `Hasher` trait, as
/// `hash_index_and_bytes` does. Writes the raw index value, then a wire's
/// own hash value.
#[verifier::external_body]
pub(crate) fn hash_index_and_id(nid: i64, id: u64) -> u64 {
    let mut hasher = ahash::AHasher::default();
    std::hash::Hasher::write_i64(&mut hasher, nid);
    std::hash::Hasher::write_u64(&mut hasher, id);
    std::hash::Hasher::finish(&hasher)
}

} // verus!
