//! The 256-bit block hash.
//!
//! A hash is made and compared by `primitive_types`, and is opaque here: the
//! codec carries it from a record into a slot and back. What is known of a
//! hash is its 32 bytes, [`hash_bytes`].

use vstd::prelude::*;

pub use primitive_types::H256 as BlockHash;

verus! {

/// `primitive_types::H256`: 32 bytes behind a name.
#[verifier::external_type_specification]
#[verifier::external_body]
pub struct ExH256(primitive_types::H256);

/// The bytes that a hash holds, first byte first.
pub uninterp spec fn hash_bytes(hash: BlockHash) -> Seq<u8>;

/// `H256::from` on an array of 32 bytes: the hash that holds exactly the
/// given bytes, in the given order.
#[verifier::external_body]
pub(crate) fn hash_from_bytes(bytes: [u8; 32]) -> (hash: BlockHash)
    ensures
        hash_bytes(hash) == bytes@,
{
    BlockHash::from(bytes)
}

/// `==` on `H256`: two hashes are equal exactly when they hold the same
/// bytes.
#[verifier::external_body]
pub(crate) fn hash_eq(left: &BlockHash, right: &BlockHash) -> (equal: bool)
    ensures
        equal == (hash_bytes(*left) == hash_bytes(*right)),
{
    left == right
}

} // verus!
